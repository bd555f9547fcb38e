//! The object commands, as far as they decide anything: uploads with their
//! progress notices, deletes of several keys, and the defaults of previews
//! and presigned requests.

use vstd::prelude::*;
use vstd::string::*;
use crate::error::{io_result, AppError, AppErrorView, AppResult};
use crate::models::{EntryMetadata, UploadProgress, UploadProgressView};
use crate::services::aws_api::{validity_held, MAX_PRESIGN_SECS};
use crate::services::buckets::{presign_refusal, PresignRequest, DEFAULT_PRESIGN_SECS};
use crate::services::objects::{
    body_view, stat_view, text_step, TextStep, WriteRequest, WriteRequestView, DEFAULT_TEXT_LIMIT,
};
use crate::services::s3_service::S3Service;

verus! {

/// An upload of a file: the write, the notice that goes out before it, and
/// the notice that goes out once it has succeeded.
#[derive(Debug, PartialEq, Eq)]
pub struct UploadPlan {
    pub started: UploadProgress,
    pub request: WriteRequest,
    pub finished: UploadProgress,
}

/// The notice that `uploaded` of `total` bytes of `file_name` are uploaded,
/// which is `percentage` percent.
pub open spec fn progress_of(file_name: Seq<char>, uploaded: u64, total: u64, percentage: u8) -> UploadProgressView {
    UploadProgressView {
        file_name,
        bytes_uploaded: uploaded,
        total_bytes: total,
        percentage,
    }
}

/// The upload of a file under `key`. `read` is what reading the file gave:
/// a file that cannot be read is an I/O error, and nothing is uploaded or
/// announced. Otherwise its content is written as it is; the notices name
/// the key as the file's name, the first says that nothing is uploaded, the
/// last that everything is.
pub fn upload_file(key: &str, read: Result<Vec<u8>, String>) -> (plan: AppResult<UploadPlan>)
    ensures
        match read {
            Err(description) => plan matches Err(e) && e@ == AppErrorView::IoError(description@),
            Ok(data) => {
                &&& plan matches Ok(p)
                &&& p.started@ == progress_of(key@, 0, data@.len() as u64, 0)
                &&& p.request@ == (WriteRequestView { key: key@, data: data@ })
                &&& p.finished@ == progress_of(key@, data@.len() as u64, data@.len() as u64, 100)
            },
        },
{
    let data = match read {
        Err(description) => {
            return Err(AppError::IoError(description));
        },
        Ok(data) => data,
    };
    let total_bytes: u64 = data.len() as u64;
    Ok(
        UploadPlan {
            started: UploadProgress {
                file_name: key.to_owned(),
                bytes_uploaded: 0,
                total_bytes,
                percentage: 0,
            },
            request: S3Service::upload_object(key, data),
            finished: UploadProgress {
                file_name: key.to_owned(),
                bytes_uploaded: total_bytes,
                total_bytes,
                percentage: 100,
            },
        },
    )
}

/// What a download to a file reports once the content is there. `written`
/// is what writing the file gave: a file that cannot be written is an I/O
/// error.
pub fn download_file(written: Result<(), String>) -> (result: AppResult<()>)
    ensures
        match written {
            Ok(_) => result is Ok,
            Err(description) => result matches Err(e) && e@ == AppErrorView::IoError(description@),
        },
{
    io_result(written)
}

/// What a delete of several keys does next.
#[derive(Debug, PartialEq, Eq)]
pub enum DeleteStep {
    /// Delete the object under this key.
    Delete { key: String },
    /// The deletes are over.
    Done(AppResult<()>),
}

/// The mathematical value of a [`DeleteStep`].
pub enum DeleteStepView {
    Delete { key: Seq<char> },
    Done(Result<(), AppErrorView>),
}

impl View for DeleteStep {
    type V = DeleteStepView;

    open spec fn view(&self) -> DeleteStepView {
        match *self {
            DeleteStep::Delete { key } => DeleteStepView::Delete { key: key@ },
            DeleteStep::Done(Ok(_)) => DeleteStepView::Done(Ok(())),
            DeleteStep::Done(Err(error)) => DeleteStepView::Done(Err(error@)),
        }
    }
}

/// The rule of a delete of several keys: one key after the other, in
/// order. The first failure ends it and is reported; the keys behind it are
/// left alone. It succeeds when every key is deleted.
pub open spec fn delete_step(keys: Seq<Seq<char>>, answered: nat, latest: Result<(), Seq<char>>) -> DeleteStepView {
    match latest {
        Err(description) => DeleteStepView::Done(Err(AppErrorView::BackendError(description))),
        Ok(_) => if answered < keys.len() {
            DeleteStepView::Delete { key: keys[answered as int] }
        } else {
            DeleteStepView::Done(Ok(()))
        },
    }
}

/// What a delete of `keys` does next. `answered` is how many deletes the
/// backend has answered with success, and `latest` is its latest answer,
/// or `Ok` as long as there is none.
pub fn delete_objects(
    keys: &Vec<String>,
    answered: usize,
    latest: Result<(), String>,
) -> (step: DeleteStep)
    ensures
        step@ == delete_step(
            keys.deep_view(),
            answered as nat,
            match latest {
                Ok(_) => Ok(()),
                Err(description) => Err(description@),
            },
        ),
{
    match latest {
        Err(description) => DeleteStep::Done(Err(AppError::BackendError(description))),
        Ok(_) => if answered < keys.len() {
            DeleteStep::Delete { key: keys[answered].clone() }
        } else {
            DeleteStep::Done(Ok(()))
        },
    }
}

/// The size limit of a text preview: the one asked for, else one mebibyte.
pub open spec fn text_limit(max_size: Option<u64>) -> u64 {
    match max_size {
        Some(limit) => limit,
        None => 1048576,
    }
}

/// What a text preview does next, under the size limit asked for or under
/// the default of one mebibyte.
pub fn get_object_text(
    stat: Result<EntryMetadata, String>,
    body: Option<Result<Vec<u8>, String>>,
    max_size: Option<u64>,
) -> (step: TextStep)
    ensures
        step@ == text_step(stat_view(stat), body_view(body), text_limit(max_size)),
{
    let max: u64 = match max_size {
        Some(limit) => limit,
        None => DEFAULT_TEXT_LIMIT,
    };
    S3Service::get_object_content_as_text(stat, body, max)
}

/// The validity of a presigned request, in seconds: the one asked for, else
/// one hour.
pub open spec fn presign_validity(expires_in_secs: Option<u64>) -> u64 {
    match expires_in_secs {
        Some(seconds) => seconds,
        None => 3600,
    }
}

/// The request to presign a download, valid for the time asked for or for
/// one hour.
pub fn get_presigned_url(
    bucket: &str,
    key: &str,
    expires_in_secs: Option<u64>,
) -> (request: AppResult<PresignRequest>)
    ensures
        presign_validity(expires_in_secs) <= MAX_PRESIGN_SECS ==> (request matches Ok(r)
            && r.bucket@ == bucket@ && r.key@ == key@ && r.expires_in_secs == presign_validity(
            expires_in_secs,
        ) && validity_held(r.config) == presign_validity(expires_in_secs)),
        presign_validity(expires_in_secs) > MAX_PRESIGN_SECS ==> (request matches Err(e) && e@
            == presign_refusal()),
{
    let expires: u64 = match expires_in_secs {
        Some(seconds) => seconds,
        None => DEFAULT_PRESIGN_SECS,
    };
    S3Service::get_presigned_url(bucket, key, expires)
}

} // verus!
