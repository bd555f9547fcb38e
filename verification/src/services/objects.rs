//! Operations on single objects: what is asked of the storage operator, and
//! what is made of its answers.

use vstd::prelude::*;
use vstd::string::*;
use crate::error::{backend_result, AppError, AppErrorView, AppResult};
use crate::models::{EntryMetadata, EntryMetadataView, HeadObjectReply, ObjectMetadata, S3Object};
use crate::models::object::{collect_pairs, metadata_of, object_of, size_of_count};
use crate::services::s3_service::S3Service;
use crate::text::{
    ends_with_slash, slash_terminated, text_from_utf8, utf8_error_text, with_trailing_slash,
};

verus! {

/// The size up to which a text preview is read where the caller names none:
/// one mebibyte.
pub const DEFAULT_TEXT_LIMIT: u64 = 1048576;

/// A whole-object write: `data` becomes the content under `key`, whatever
/// was there.
#[derive(Debug, PartialEq, Eq)]
pub struct WriteRequest {
    pub key: String,
    pub data: Vec<u8>,
}

/// The mathematical value of a [`WriteRequest`].
pub struct WriteRequestView {
    pub key: Seq<char>,
    pub data: Seq<u8>,
}

impl View for WriteRequest {
    type V = WriteRequestView;

    open spec fn view(&self) -> WriteRequestView {
        WriteRequestView { key: self.key@, data: self.data@ }
    }
}

/// The write that creates the folder `path`: an empty object under the path
/// made to end in `/`. This marker is all there is to a folder.
pub open spec fn folder_marker(path: Seq<char>) -> WriteRequestView {
    WriteRequestView { key: slash_terminated(path), data: Seq::empty() }
}

/// A path names the same folder with and without its final `/`: the key of
/// the marker always ends in `/`, and writing the `/` out changes nothing.
pub proof fn folder_key_ignores_trailing_slash(path: Seq<char>)
    ensures
        folder_marker(slash_terminated(path)) == folder_marker(path),
        !ends_with_slash(path) ==> folder_marker(path.push('/')) == folder_marker(path),
        ends_with_slash(folder_marker(path).key),
{
    assert(path.push('/').last() == '/');
}

/// What a text preview does next.
#[derive(Debug, PartialEq, Eq)]
pub enum TextStep {
    /// The object is small enough: read its content.
    ReadBody,
    /// The preview is over.
    Done(AppResult<String>),
}

/// The mathematical value of a [`TextStep`].
pub enum TextStepView {
    ReadBody,
    Done(Result<Seq<char>, AppErrorView>),
}

impl View for TextStep {
    type V = TextStepView;

    open spec fn view(&self) -> TextStepView {
        match *self {
            TextStep::ReadBody => TextStepView::ReadBody,
            TextStep::Done(Ok(text)) => TextStepView::Done(Ok(text@)),
            TextStep::Done(Err(error)) => TextStepView::Done(Err(error@)),
        }
    }
}

/// The rule of the text preview. The metadata come first: a failure to get
/// them ends the preview, and so does a size above `max_size`, before any
/// content is asked for. Only then is the content read; it must be valid
/// UTF-8 and is handed out as the text it encodes.
pub open spec fn text_step(
    stat: Result<EntryMetadataView, Seq<char>>,
    body: Option<Result<Seq<u8>, Seq<char>>>,
    max_size: u64,
) -> TextStepView {
    match stat {
        Err(description) => TextStepView::Done(Err(AppErrorView::BackendError(description))),
        Ok(metadata) => if metadata.content_length > max_size {
            TextStepView::Done(
                Err(AppErrorView::SizeLimitExceeded { size: metadata.content_length, max_size }),
            )
        } else {
            match body {
                None => TextStepView::ReadBody,
                Some(Err(description)) => TextStepView::Done(
                    Err(AppErrorView::BackendError(description)),
                ),
                Some(Ok(bytes)) => if vstd::utf8::valid_utf8(bytes) {
                    TextStepView::Done(Ok(vstd::utf8::decode_utf8(bytes)))
                } else {
                    TextStepView::Done(Err(AppErrorView::EncodingError(utf8_error_text(bytes))))
                },
            }
        },
    }
}

/// An object above the size limit is refused without its content being
/// read: whatever a read would give, the preview asks for none and ends
/// with the size-limit error.
pub proof fn large_object_is_never_read(
    metadata: EntryMetadataView,
    body: Option<Result<Seq<u8>, Seq<char>>>,
    max_size: u64,
)
    requires
        metadata.content_length > max_size,
    ensures
        text_step(Ok(metadata), body, max_size) == TextStepView::Done(
            Err(AppErrorView::SizeLimitExceeded { size: metadata.content_length, max_size }),
        ),
        text_step(Ok(metadata), body, max_size) != TextStepView::ReadBody,
{
}

/// What the decoding of an object's content is reported as: the text, or
/// an encoding error with the decoder's words.
pub fn decoded_text(decoded: Result<String, String>) -> (result: AppResult<String>)
    ensures
        match decoded {
            Ok(text) => result matches Ok(shown) && shown@ == text@,
            Err(refusal) => result matches Err(e) && e@ == AppErrorView::EncodingError(refusal@),
        },
{
    match decoded {
        Ok(text) => Ok(text),
        Err(refusal) => Err(AppError::EncodingError(refusal)),
    }
}

/// The view of what a stat call gave.
pub open spec fn stat_view(stat: Result<EntryMetadata, String>) -> Result<EntryMetadataView, Seq<char>> {
    match stat {
        Ok(metadata) => Ok(metadata@),
        Err(description) => Err(description@),
    }
}

/// The view of what a read call gave, if one was made.
pub open spec fn body_view(body: Option<Result<Vec<u8>, String>>) -> Option<
    Result<Seq<u8>, Seq<char>>,
> {
    match body {
        None => None,
        Some(Ok(bytes)) => Some(Ok(bytes@)),
        Some(Err(description)) => Some(Err(description@)),
    }
}

impl S3Service {
    /// The write that stores `data` under `key`: both go to the backend as
    /// they are, in one piece.
    pub fn upload_object(key: &str, data: Vec<u8>) -> (request: WriteRequest)
        ensures
            request@ == (WriteRequestView { key: key@, data: data@ }),
    {
        WriteRequest { key: key.to_owned(), data }
    }

    /// What a download reports: the bytes as the backend gave them, or its
    /// failure.
    pub fn download_object(reply: Result<Vec<u8>, String>) -> (result: AppResult<Vec<u8>>)
        ensures
            match reply {
                Ok(bytes) => result matches Ok(data) && data@ == bytes@,
                Err(description) => result matches Err(e) && e@ == AppErrorView::BackendError(
                    description@,
                ),
            },
    {
        backend_result(reply)
    }

    /// What a delete reports: success whenever the backend reports success.
    /// No check is added that the key existed.
    pub fn delete_object(reply: Result<(), String>) -> (result: AppResult<()>)
        ensures
            match reply {
                Ok(_) => result is Ok,
                Err(description) => result matches Err(e) && e@ == AppErrorView::BackendError(
                    description@,
                ),
            },
    {
        backend_result(reply)
    }

    /// The object that a stat of `key` describes, or the backend's failure.
    pub fn get_object_details(key: &str, reply: Result<EntryMetadata, String>) -> (result: AppResult<
        S3Object,
    >)
        ensures
            match reply {
                Ok(metadata) => result matches Ok(object) && object@ == object_of(
                    key@,
                    metadata@,
                    metadata@.is_dir,
                ),
                Err(description) => result matches Err(e) && e@ == AppErrorView::BackendError(
                    description@,
                ),
            },
    {
        match reply {
            Ok(metadata) => {
                let is_directory = metadata.is_dir;
                Ok(S3Object::describe(key.to_owned(), metadata, is_directory))
            },
            Err(description) => Err(AppError::BackendError(description)),
        }
    }

    /// The write that creates the folder `path`.
    pub fn create_folder(path: &str) -> (request: WriteRequest)
        ensures
            request@ == folder_marker(path@),
    {
        WriteRequest { key: with_trailing_slash(path), data: Vec::new() }
    }

    /// What a text preview of at most `max_size` bytes does next. `stat` is
    /// what the stat call gave; `body` is what the read call gave, or `None`
    /// as long as none was made.
    pub fn get_object_content_as_text(
        stat: Result<EntryMetadata, String>,
        body: Option<Result<Vec<u8>, String>>,
        max_size: u64,
    ) -> (step: TextStep)
        ensures
            step@ == text_step(stat_view(stat), body_view(body), max_size),
    {
        let metadata = match stat {
            Err(description) => {
                return TextStep::Done(Err(AppError::BackendError(description)));
            },
            Ok(metadata) => metadata,
        };
        if metadata.content_length > max_size {
            return TextStep::Done(
                Err(AppError::SizeLimitExceeded { size: metadata.content_length, max_size }),
            );
        }
        match body {
            None => TextStep::ReadBody,
            Some(Err(description)) => TextStep::Done(Err(AppError::BackendError(description))),
            Some(Ok(bytes)) => TextStep::Done(decoded_text(text_from_utf8(bytes))),
        }
    }

    /// Everything the administrative client reports of the object under
    /// `key`, or its failure.
    pub fn get_object_metadata(
        key: &str,
        reply: Result<HeadObjectReply, String>,
    ) -> (result: AppResult<ObjectMetadata>)
        ensures
            match reply {
                Ok(head) => result matches Ok(metadata) && metadata@ == metadata_of(key@, head@)
                    && metadata@.well_formed(),
                Err(description) => result matches Err(e) && e@ == AppErrorView::BackendError(
                    description@,
                ),
            },
    {
        match reply {
            Err(description) => Err(AppError::BackendError(description)),
            Ok(head) => {
                let custom_metadata: Vec<(String, String)> = match head.metadata {
                    Some(pairs) => collect_pairs(pairs),
                    None => Vec::new(),
                };
                let metadata = ObjectMetadata {
                    key: key.to_owned(),
                    size: size_of_count(head.content_length),
                    last_modified: head.last_modified,
                    etag: head.e_tag,
                    content_type: head.content_type,
                    content_encoding: head.content_encoding,
                    content_disposition: head.content_disposition,
                    content_language: head.content_language,
                    cache_control: head.cache_control,
                    storage_class: head.storage_class,
                    version_id: head.version_id,
                    custom_metadata,
                };
                assert(metadata@.custom_metadata =~= metadata_of(key@, head@).custom_metadata);
                Ok(metadata)
            },
        }
    }
}

} // verus!
