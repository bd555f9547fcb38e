//! Objects, listing pages and what a backend reports of them.

use vstd::prelude::*;
use crate::state::{distinct_keys, has_key, put, put_then_lookup, ConnectionMap};

verus! {

/// What the storage operator reports of one entry besides its path.
#[derive(Debug, PartialEq, Eq)]
pub struct EntryMetadata {
    /// The backend marks the entry as a directory.
    pub is_dir: bool,
    pub content_length: u64,
    /// Seconds since the epoch, where the backend gave a time.
    pub last_modified: Option<i64>,
    pub etag: Option<String>,
    pub content_type: Option<String>,
}

/// The mathematical value of an [`EntryMetadata`].
pub struct EntryMetadataView {
    pub is_dir: bool,
    pub content_length: u64,
    pub last_modified: Option<i64>,
    pub etag: Option<Seq<char>>,
    pub content_type: Option<Seq<char>>,
}

impl View for EntryMetadata {
    type V = EntryMetadataView;

    open spec fn view(&self) -> EntryMetadataView {
        EntryMetadataView {
            is_dir: self.is_dir,
            content_length: self.content_length,
            last_modified: self.last_modified,
            etag: self.etag.deep_view(),
            content_type: self.content_type.deep_view(),
        }
    }
}

impl DeepView for EntryMetadata {
    type V = EntryMetadataView;

    open spec fn deep_view(&self) -> EntryMetadataView {
        self@
    }
}

impl Clone for EntryMetadata {
    fn clone(&self) -> (copy: Self)
        ensures
            copy@ == self@,
    {
        EntryMetadata {
            is_dir: self.is_dir,
            content_length: self.content_length,
            last_modified: self.last_modified,
            etag: self.etag.clone(),
            content_type: self.content_type.clone(),
        }
    }
}

/// One entry of a listing as the storage operator hands it out.
#[derive(Debug, PartialEq, Eq)]
pub struct ListedEntry {
    pub path: String,
    pub metadata: EntryMetadata,
}

/// The mathematical value of a [`ListedEntry`].
pub struct ListedEntryView {
    pub path: Seq<char>,
    pub metadata: EntryMetadataView,
}

impl View for ListedEntry {
    type V = ListedEntryView;

    open spec fn view(&self) -> ListedEntryView {
        ListedEntryView { path: self.path@, metadata: self.metadata@ }
    }
}

impl DeepView for ListedEntry {
    type V = ListedEntryView;

    open spec fn deep_view(&self) -> ListedEntryView {
        self@
    }
}

impl Clone for ListedEntry {
    fn clone(&self) -> (copy: Self)
        ensures
            copy@ == self@,
    {
        ListedEntry { path: self.path.clone(), metadata: self.metadata.clone() }
    }
}

/// An object, or a directory marker, as it is shown.
#[derive(Debug, PartialEq, Eq)]
pub struct S3Object {
    pub key: String,
    pub size: u64,
    /// Seconds since the epoch; 0 where the backend gave no time.
    pub last_modified: i64,
    pub etag: Option<String>,
    pub content_type: Option<String>,
    pub is_directory: bool,
}

/// The mathematical value of an [`S3Object`].
pub struct S3ObjectView {
    pub key: Seq<char>,
    pub size: u64,
    pub last_modified: i64,
    pub etag: Option<Seq<char>>,
    pub content_type: Option<Seq<char>>,
    pub is_directory: bool,
}

impl View for S3Object {
    type V = S3ObjectView;

    open spec fn view(&self) -> S3ObjectView {
        S3ObjectView {
            key: self.key@,
            size: self.size,
            last_modified: self.last_modified,
            etag: self.etag.deep_view(),
            content_type: self.content_type.deep_view(),
            is_directory: self.is_directory,
        }
    }
}

impl DeepView for S3Object {
    type V = S3ObjectView;

    open spec fn deep_view(&self) -> S3ObjectView {
        self@
    }
}

impl Clone for S3Object {
    fn clone(&self) -> (copy: Self)
        ensures
            copy@ == self@,
    {
        S3Object {
            key: self.key.clone(),
            size: self.size,
            last_modified: self.last_modified,
            etag: self.etag.clone(),
            content_type: self.content_type.clone(),
            is_directory: self.is_directory,
        }
    }
}

/// The object that `metadata` describes under `key`: the fields are copied,
/// a missing modification time becomes 0, and `is_directory` is as given.
pub open spec fn object_of(
    key: Seq<char>,
    metadata: EntryMetadataView,
    is_directory: bool,
) -> S3ObjectView {
    S3ObjectView {
        key,
        size: metadata.content_length,
        last_modified: match metadata.last_modified {
            Some(seconds) => seconds,
            None => 0,
        },
        etag: metadata.etag,
        content_type: metadata.content_type,
        is_directory,
    }
}

impl S3Object {
    /// Builds the object that `metadata` describes under `key`.
    pub fn describe(key: String, metadata: EntryMetadata, is_directory: bool) -> (object: Self)
        ensures
            object@ == object_of(key@, metadata@, is_directory),
    {
        let last_modified: i64 = match metadata.last_modified {
            Some(seconds) => seconds,
            None => 0,
        };
        S3Object {
            key,
            size: metadata.content_length,
            last_modified,
            etag: metadata.etag,
            content_type: metadata.content_type,
            is_directory,
        }
    }
}

/// One page of a listing: the objects in the order the backend gave them,
/// the directory prefixes, and whether more entries follow.
#[derive(Debug, PartialEq, Eq)]
pub struct ListObjectsResult {
    pub objects: Vec<S3Object>,
    pub prefixes: Vec<String>,
    pub continuation_token: Option<String>,
    pub is_truncated: bool,
}

/// The mathematical value of a [`ListObjectsResult`].
pub struct ListObjectsResultView {
    pub objects: Seq<S3ObjectView>,
    pub prefixes: Seq<Seq<char>>,
    pub continuation_token: Option<Seq<char>>,
    pub is_truncated: bool,
}

impl ListObjectsResultView {
    /// A page is truncated exactly when it carries a continuation marker.
    pub open spec fn well_formed(self) -> bool {
        self.is_truncated == (self.continuation_token is Some)
    }

    /// How many entries the page holds, objects and prefixes together.
    pub open spec fn entry_count(self) -> nat {
        self.objects.len() + self.prefixes.len()
    }
}

impl View for ListObjectsResult {
    type V = ListObjectsResultView;

    open spec fn view(&self) -> ListObjectsResultView {
        ListObjectsResultView {
            objects: self.objects.deep_view(),
            prefixes: self.prefixes.deep_view(),
            continuation_token: self.continuation_token.deep_view(),
            is_truncated: self.is_truncated,
        }
    }
}

impl DeepView for ListObjectsResult {
    type V = ListObjectsResultView;

    open spec fn deep_view(&self) -> ListObjectsResultView {
        self@
    }
}

/// What the administrative client reports of one object on a head request.
#[derive(Debug, PartialEq, Eq)]
pub struct HeadObjectReply {
    pub content_length: Option<i64>,
    /// Seconds since the epoch.
    pub last_modified: Option<i64>,
    pub e_tag: Option<String>,
    pub content_type: Option<String>,
    pub content_encoding: Option<String>,
    pub content_disposition: Option<String>,
    pub content_language: Option<String>,
    pub cache_control: Option<String>,
    pub storage_class: Option<String>,
    pub version_id: Option<String>,
    /// The user-defined key/value pairs, where the backend sent any.
    pub metadata: Option<Vec<(String, String)>>,
}

/// The mathematical value of a [`HeadObjectReply`].
pub struct HeadObjectReplyView {
    pub content_length: Option<i64>,
    pub last_modified: Option<i64>,
    pub e_tag: Option<Seq<char>>,
    pub content_type: Option<Seq<char>>,
    pub content_encoding: Option<Seq<char>>,
    pub content_disposition: Option<Seq<char>>,
    pub content_language: Option<Seq<char>>,
    pub cache_control: Option<Seq<char>>,
    pub storage_class: Option<Seq<char>>,
    pub version_id: Option<Seq<char>>,
    pub metadata: Option<Seq<(Seq<char>, Seq<char>)>>,
}

impl View for HeadObjectReply {
    type V = HeadObjectReplyView;

    open spec fn view(&self) -> HeadObjectReplyView {
        HeadObjectReplyView {
            content_length: self.content_length,
            last_modified: self.last_modified,
            e_tag: self.e_tag.deep_view(),
            content_type: self.content_type.deep_view(),
            content_encoding: self.content_encoding.deep_view(),
            content_disposition: self.content_disposition.deep_view(),
            content_language: self.content_language.deep_view(),
            cache_control: self.cache_control.deep_view(),
            storage_class: self.storage_class.deep_view(),
            version_id: self.version_id.deep_view(),
            metadata: self.metadata.deep_view(),
        }
    }
}

impl DeepView for HeadObjectReply {
    type V = HeadObjectReplyView;

    open spec fn deep_view(&self) -> HeadObjectReplyView {
        self@
    }
}

/// Everything the administrative client knows of one object.
#[derive(Debug, PartialEq, Eq)]
pub struct ObjectMetadata {
    pub key: String,
    pub size: u64,
    pub last_modified: Option<i64>,
    pub etag: Option<String>,
    pub content_type: Option<String>,
    pub content_encoding: Option<String>,
    pub content_disposition: Option<String>,
    pub content_language: Option<String>,
    pub cache_control: Option<String>,
    pub storage_class: Option<String>,
    pub version_id: Option<String>,
    /// The user-defined key/value pairs, each key once, in the order in
    /// which the backend first gave the keys.
    pub custom_metadata: Vec<(String, String)>,
}

/// The mathematical value of an [`ObjectMetadata`].
pub struct ObjectMetadataView {
    pub key: Seq<char>,
    pub size: u64,
    pub last_modified: Option<i64>,
    pub etag: Option<Seq<char>>,
    pub content_type: Option<Seq<char>>,
    pub content_encoding: Option<Seq<char>>,
    pub content_disposition: Option<Seq<char>>,
    pub content_language: Option<Seq<char>>,
    pub cache_control: Option<Seq<char>>,
    pub storage_class: Option<Seq<char>>,
    pub version_id: Option<Seq<char>>,
    pub custom_metadata: Seq<(Seq<char>, Seq<char>)>,
}

impl ObjectMetadataView {
    /// No key of the user-defined pairs occurs twice.
    pub open spec fn well_formed(self) -> bool {
        distinct_keys(self.custom_metadata)
    }
}

impl View for ObjectMetadata {
    type V = ObjectMetadataView;

    open spec fn view(&self) -> ObjectMetadataView {
        ObjectMetadataView {
            key: self.key@,
            size: self.size,
            last_modified: self.last_modified,
            etag: self.etag.deep_view(),
            content_type: self.content_type.deep_view(),
            content_encoding: self.content_encoding.deep_view(),
            content_disposition: self.content_disposition.deep_view(),
            content_language: self.content_language.deep_view(),
            cache_control: self.cache_control.deep_view(),
            storage_class: self.storage_class.deep_view(),
            version_id: self.version_id.deep_view(),
            custom_metadata: self.custom_metadata.deep_view(),
        }
    }
}

impl DeepView for ObjectMetadata {
    type V = ObjectMetadataView;

    open spec fn deep_view(&self) -> ObjectMetadataView {
        self@
    }
}

/// The size a backend's signed byte count stands for: a missing count is 0,
/// and a count is read as the unsigned number with the same 64 bits.
pub open spec fn byte_count(reported: Option<i64>) -> u64 {
    match reported {
        Some(n) => n as u64,
        None => 0,
    }
}

/// The pairs as a mapping holds them: each key once, at the place where it
/// first came, with the value that came for it last.
pub open spec fn pairs_by_key(pairs: Seq<(Seq<char>, Seq<char>)>) -> Seq<(Seq<char>, Seq<char>)>
    decreases pairs.len(),
{
    if pairs.len() == 0 {
        Seq::empty()
    } else {
        put(pairs_by_key(pairs.drop_last()), pairs.last().0, pairs.last().1)
    }
}

/// No key occurs twice in `pairs_by_key`, and pairs whose keys are distinct
/// already are kept as they are.
pub proof fn pairs_by_key_are_distinct(pairs: Seq<(Seq<char>, Seq<char>)>)
    ensures
        distinct_keys(pairs_by_key(pairs)),
        distinct_keys(pairs) ==> pairs_by_key(pairs) == pairs,
    decreases pairs.len(),
{
    if pairs.len() > 0 {
        let before = pairs.drop_last();
        let last = pairs.last();
        pairs_by_key_are_distinct(before);
        put_then_lookup(pairs_by_key(before), last.0, last.1, last.0);
        if distinct_keys(pairs) {
            assert(distinct_keys(before)) by {
                assert forall|i: int, j: int| 0 <= i < j < before.len() implies (
                #[trigger] before[i]).0 != (#[trigger] before[j]).0 by {
                    assert(pairs[i].0 != pairs[j].0);
                }
            }
            if has_key(before, last.0) {
                let i = choose|i: int| 0 <= i < before.len() && (#[trigger] before[i]).0 == last.0;
                assert(pairs[i].0 != pairs[pairs.len() - 1].0);
            }
            assert(before.push((last.0, last.1)) =~= pairs);
        }
    }
}

/// The metadata that `reply` describes under `key`: each field is passed
/// through; a missing length is 0 and missing user pairs are none. The
/// user pairs are held by key.
pub open spec fn metadata_of(key: Seq<char>, reply: HeadObjectReplyView) -> ObjectMetadataView {
    ObjectMetadataView {
        key,
        size: byte_count(reply.content_length),
        last_modified: reply.last_modified,
        etag: reply.e_tag,
        content_type: reply.content_type,
        content_encoding: reply.content_encoding,
        content_disposition: reply.content_disposition,
        content_language: reply.content_language,
        cache_control: reply.cache_control,
        storage_class: reply.storage_class,
        version_id: reply.version_id,
        custom_metadata: match reply.metadata {
            Some(pairs) => pairs_by_key(pairs),
            None => Seq::empty(),
        },
    }
}

/// Holds the pairs by key.
pub fn collect_pairs(pairs: Vec<(String, String)>) -> (held: Vec<(String, String)>)
    ensures
        held.deep_view() == pairs_by_key(pairs.deep_view()),
        distinct_keys(held.deep_view()),
{
    let ghost all = pairs.deep_view();
    let mut by_key: ConnectionMap<String> = ConnectionMap::new();
    for pair in it: pairs
        invariant
            all == pairs.deep_view(),
            it.seq().len() == all.len(),
            forall|j: int|
                0 <= j < all.len() ==> (#[trigger] it.seq()[j]).0@ == all[j].0 && it.seq()[j].1@
                    == all[j].1,
            by_key.entries() == pairs_by_key(all.take(it.index())),
    {
        proof {
            assert(all.take(it.index() + 1).drop_last() =~= all.take(it.index()));
            assert(all.take(it.index() + 1).last() == all[it.index()]);
        }
        by_key.insert(pair.0, pair.1);
    }
    proof {
        assert(all.take(all.len() as int) =~= all);
    }
    let held = by_key.into_entries();
    assert(held.deep_view() =~= pairs_by_key(all));
    held
}

/// The size that a reported byte count stands for.
pub fn size_of_count(reported: Option<i64>) -> (size: u64)
    ensures
        size == byte_count(reported),
        reported matches Some(n) ==> (n >= 0 ==> size == n),
{
    match reported {
        Some(n) => n as u64,
        None => 0,
    }
}

/// A notice of how far an upload has come.
#[derive(Debug, PartialEq, Eq)]
pub struct UploadProgress {
    pub file_name: String,
    pub bytes_uploaded: u64,
    pub total_bytes: u64,
    /// The share of the bytes that is uploaded, in percent.
    pub percentage: u8,
}

/// The mathematical value of an [`UploadProgress`].
pub struct UploadProgressView {
    pub file_name: Seq<char>,
    pub bytes_uploaded: u64,
    pub total_bytes: u64,
    pub percentage: u8,
}

impl View for UploadProgress {
    type V = UploadProgressView;

    open spec fn view(&self) -> UploadProgressView {
        UploadProgressView {
            file_name: self.file_name@,
            bytes_uploaded: self.bytes_uploaded,
            total_bytes: self.total_bytes,
            percentage: self.percentage,
        }
    }
}

impl DeepView for UploadProgress {
    type V = UploadProgressView;

    open spec fn deep_view(&self) -> UploadProgressView {
        self@
    }
}

} // verus!
