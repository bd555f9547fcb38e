pub mod bucket;
pub mod connection;
pub mod object;

pub use bucket::{
    BucketEntry, BucketEntryView, BucketInfo, BucketInfoView, BucketStats, BucketStatsView,
};
pub use connection::{
    S3Connection, S3ConnectionView, S3ConnectionWithSecret, S3ConnectionWithSecretView, S3Provider,
};
pub use object::{
    EntryMetadata, EntryMetadataView, HeadObjectReply, HeadObjectReplyView, ListObjectsResult,
    ListObjectsResultView, ListedEntry, ListedEntryView, ObjectMetadata, ObjectMetadataView,
    S3Object, S3ObjectView, UploadProgress, UploadProgressView,
};
