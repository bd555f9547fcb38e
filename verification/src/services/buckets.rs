//! Operations of the administrative client: buckets, copies, renames and
//! presigned requests.

use vstd::prelude::*;
use vstd::string::*;
use crate::error::{backend_result, AppError, AppErrorView, AppResult};
use crate::models::{BucketEntry, BucketEntryView, BucketInfo, S3ConnectionWithSecret};
use crate::models::bucket::bucket_of;
use crate::services::aws_api::{
    bucket_configuration, constraint_held, presigning_config, validity_held, MAX_PRESIGN_SECS,
};
use crate::services::s3_service::S3Service;
use crate::text::{join_text, contains, contains_text, same_text};

verus! {

/// The region that the backend treats as ambient: a bucket is created there
/// without a location constraint.
pub const DEFAULT_REGION: &'static str = "us-east-1";

/// How long a presigned request is valid where the caller names no time: one
/// hour, in seconds.
pub const DEFAULT_PRESIGN_SECS: u64 = 3600;

/// The creation of a bucket.
#[derive(Debug, PartialEq)]
pub struct CreateBucketRequest {
    pub bucket: String,
    /// The location constraint that the request carries, if any.
    pub location_constraint: Option<String>,
    /// The constraint in the form the SDK takes it: a configuration that
    /// names it, or none where there is no constraint.
    pub configuration: Option<aws_sdk_s3::types::CreateBucketConfiguration>,
}

/// The mathematical value of a [`CreateBucketRequest`].
pub struct CreateBucketRequestView {
    pub bucket: Seq<char>,
    pub location_constraint: Option<Seq<char>>,
    /// The location constraint that the configuration names, where there
    /// is a configuration.
    pub configuration: Option<Option<Seq<char>>>,
}

impl View for CreateBucketRequest {
    type V = CreateBucketRequestView;

    open spec fn view(&self) -> CreateBucketRequestView {
        CreateBucketRequestView {
            bucket: self.bucket@,
            location_constraint: self.location_constraint.deep_view(),
            configuration: match self.configuration {
                Some(configuration) => Some(constraint_held(configuration)),
                None => None,
            },
        }
    }
}

/// The creation of `bucket` in `region`: without constraint and without
/// configuration for `us-east-1`; for any other region with the region as
/// the constraint and a configuration that names it.
pub open spec fn bucket_creation(bucket: Seq<char>, region: Seq<char>) -> CreateBucketRequestView {
    CreateBucketRequestView {
        bucket,
        location_constraint: location_constraint_of(region),
        configuration: match location_constraint_of(region) {
            Some(constraint) => Some(Some(constraint)),
            None => None,
        },
    }
}

/// The region a bucket is created in: the one asked for, else the
/// connection's.
pub open spec fn effective_region(connection_region: Seq<char>, region: Option<Seq<char>>) -> Seq<
    char,
> {
    match region {
        Some(asked) => asked,
        None => connection_region,
    }
}

/// The location constraint for a bucket in `region`: none for `us-east-1`,
/// else the region itself.
pub open spec fn location_constraint_of(region: Seq<char>) -> Option<Seq<char>> {
    if region == "us-east-1"@ {
        None
    } else {
        Some(region)
    }
}

/// A copy of one object, made by the backend.
#[derive(Debug, PartialEq, Eq)]
pub struct CopyRequest {
    /// Where the content comes from: bucket and key, joined by `/`.
    pub copy_source: String,
    pub bucket: String,
    pub key: String,
}

/// The mathematical value of a [`CopyRequest`].
pub struct CopyRequestView {
    pub copy_source: Seq<char>,
    pub bucket: Seq<char>,
    pub key: Seq<char>,
}

impl View for CopyRequest {
    type V = CopyRequestView;

    open spec fn view(&self) -> CopyRequestView {
        CopyRequestView { copy_source: self.copy_source@, bucket: self.bucket@, key: self.key@ }
    }
}

/// The copy of `source_key` in `source_bucket` to `dest_key` in
/// `dest_bucket`.
pub open spec fn copy_of(
    source_bucket: Seq<char>,
    source_key: Seq<char>,
    dest_bucket: Seq<char>,
    dest_key: Seq<char>,
) -> CopyRequestView {
    CopyRequestView {
        copy_source: source_bucket.push('/') + source_key,
        bucket: dest_bucket,
        key: dest_key,
    }
}

/// What a rename does next.
#[derive(Debug, PartialEq, Eq)]
pub enum RenameStep {
    /// Copy the object to its new key.
    Copy(CopyRequest),
    /// The copy is made: delete the object under this key.
    Delete { key: String },
    /// The rename is over.
    Done(AppResult<()>),
}

/// The mathematical value of a [`RenameStep`].
pub enum RenameStepView {
    Copy(CopyRequestView),
    Delete { key: Seq<char> },
    Done(Result<(), AppErrorView>),
}

impl View for RenameStep {
    type V = RenameStepView;

    open spec fn view(&self) -> RenameStepView {
        match *self {
            RenameStep::Copy(request) => RenameStepView::Copy(request@),
            RenameStep::Delete { key } => RenameStepView::Delete { key: key@ },
            RenameStep::Done(Ok(_)) => RenameStepView::Done(Ok(())),
            RenameStep::Done(Err(error)) => RenameStepView::Done(Err(error@)),
        }
    }
}

/// The view of what a call without a value gave, if it was made.
pub open spec fn reply_view(reply: Option<Result<(), String>>) -> Option<Result<(), Seq<char>>> {
    match reply {
        None => None,
        Some(Ok(_)) => Some(Ok(())),
        Some(Err(description)) => Some(Err(description@)),
    }
}

/// The rule of a rename: first the copy to the new key, within the bucket;
/// only when the copy is made, the delete of the old key. A failure of
/// either ends the rename with that failure, and a copy that was made is
/// left in place.
pub open spec fn rename_step(
    bucket: Seq<char>,
    old_key: Seq<char>,
    new_key: Seq<char>,
    copied: Option<Result<(), Seq<char>>>,
    deleted: Option<Result<(), Seq<char>>>,
) -> RenameStepView {
    match copied {
        None => RenameStepView::Copy(copy_of(bucket, old_key, bucket, new_key)),
        Some(Err(description)) => RenameStepView::Done(Err(AppErrorView::BackendError(description))),
        Some(Ok(_)) => match deleted {
            None => RenameStepView::Delete { key: old_key },
            Some(Err(description)) => RenameStepView::Done(
                Err(AppErrorView::BackendError(description)),
            ),
            Some(Ok(_)) => RenameStepView::Done(Ok(())),
        },
    }
}

/// Whether a backend's description of a failure says that the thing asked
/// for does not exist.
pub open spec fn says_not_found(description: Seq<char>) -> bool {
    contains_text(description, "404"@) || contains_text(description, "NotFound"@)
}

/// A request to presign the download of one object.
#[derive(Debug)]
pub struct PresignRequest {
    pub bucket: String,
    pub key: String,
    pub expires_in_secs: u64,
    /// The validity in the form the SDK takes it.
    pub config: aws_sdk_s3::presigning::PresigningConfig,
}

/// How a validity of more than a week is refused.
pub open spec fn presign_refusal() -> AppErrorView {
    AppErrorView::BackendError("`expires_in` must be no longer than one week"@)
}

impl S3Service {
    /// The buckets of the account as they are shown, in the backend's
    /// order, or its failure.
    pub fn list_buckets(reply: Result<Vec<BucketEntry>, String>) -> (result: AppResult<
        Vec<BucketInfo>,
    >)
        ensures
            match reply {
                Ok(entries) => result matches Ok(buckets) && buckets.deep_view()
                    == entries.deep_view().map_values(|entry: BucketEntryView| bucket_of(entry)),
                Err(description) => result matches Err(e) && e@ == AppErrorView::BackendError(
                    description@,
                ),
            },
    {
        match reply {
            Err(description) => Err(AppError::BackendError(description)),
            Ok(entries) => {
                let ghost listed = entries.deep_view();
                let mut buckets: Vec<BucketInfo> = Vec::new();
                for entry in it: entries
                    invariant
                        listed == entries.deep_view(),
                        it.seq().len() == listed.len(),
                        forall|j: int| 0 <= j < listed.len() ==> (#[trigger] it.seq()[j])@ == listed[j],
                        buckets.deep_view() == listed.take(it.index()).map_values(
                            |entry: BucketEntryView| bucket_of(entry),
                        ),
                {
                    let ghost before = buckets.deep_view();
                    let bucket = BucketInfo::describe(entry);
                    buckets.push(bucket);
                    assert(buckets.deep_view() =~= before.push(bucket@));
                    assert(listed.take(it.index() + 1).map_values(
                        |entry: BucketEntryView| bucket_of(entry),
                    ) =~= before.push(bucket@));
                }
                assert(listed.take(listed.len() as int) =~= listed);
                Ok(buckets)
            },
        }
    }

    /// The creation of `bucket_name` in `region`, or in the connection's
    /// region where none is asked for. The request carries no location
    /// constraint for `us-east-1`, and the region itself for any other.
    pub fn create_bucket(
        connection: &S3ConnectionWithSecret,
        bucket_name: &str,
        region: Option<&str>,
    ) -> (request: CreateBucketRequest)
        ensures
            request@ == bucket_creation(
                bucket_name@,
                effective_region(
                    connection@.region,
                    match region {
                        Some(asked) => Some(asked@),
                        None => None,
                    },
                ),
            ),
    {
        let region_str: &str = match region {
            Some(asked) => asked,
            None => connection.region.as_str(),
        };
        if same_text(region_str, DEFAULT_REGION) {
            CreateBucketRequest {
                bucket: bucket_name.to_owned(),
                location_constraint: None,
                configuration: None,
            }
        } else {
            CreateBucketRequest {
                bucket: bucket_name.to_owned(),
                location_constraint: Some(region_str.to_owned()),
                configuration: Some(bucket_configuration(region_str)),
            }
        }
    }

    /// What the deletion of a bucket reports.
    pub fn delete_bucket(reply: Result<(), String>) -> (result: AppResult<()>)
        ensures
            match reply {
                Ok(_) => result is Ok,
                Err(description) => result matches Err(e) && e@ == AppErrorView::BackendError(
                    description@,
                ),
            },
    {
        backend_result(reply)
    }

    /// Where a bucket lies, as the backend reports it, or its failure.
    pub fn get_bucket_location(reply: Result<Option<String>, String>) -> (result: AppResult<
        Option<String>,
    >)
        ensures
            match reply {
                Ok(location) => result matches Ok(shown) && shown.deep_view()
                    == location.deep_view(),
                Err(description) => result matches Err(e) && e@ == AppErrorView::BackendError(
                    description@,
                ),
            },
    {
        backend_result(reply)
    }

    /// The versioning status of a bucket, as the backend reports it, or its
    /// failure.
    pub fn get_bucket_versioning(reply: Result<Option<String>, String>) -> (result: AppResult<
        Option<String>,
    >)
        ensures
            match reply {
                Ok(status) => result matches Ok(shown) && shown.deep_view() == status.deep_view(),
                Err(description) => result matches Err(e) && e@ == AppErrorView::BackendError(
                    description@,
                ),
            },
    {
        backend_result(reply)
    }

    /// The copy of `source_key` in `source_bucket` to `dest_key` in
    /// `dest_bucket`.
    pub fn copy_object(
        source_bucket: &str,
        source_key: &str,
        dest_bucket: &str,
        dest_key: &str,
    ) -> (request: CopyRequest)
        ensures
            request@ == copy_of(source_bucket@, source_key@, dest_bucket@, dest_key@),
    {
        let mut copy_source = join_text(source_bucket, "/");
        copy_source.append(source_key);
        proof {
            reveal_strlit("/");
            assert(source_bucket@ + "/"@ =~= source_bucket@.push('/'));
        }
        CopyRequest { copy_source, bucket: dest_bucket.to_owned(), key: dest_key.to_owned() }
    }

    /// What a rename of `old_key` to `new_key` in `bucket` does next.
    /// `copied` is what the copy gave and `deleted` what the delete gave,
    /// each `None` as long as the call was not made.
    pub fn rename_object(
        bucket: &str,
        old_key: &str,
        new_key: &str,
        copied: Option<Result<(), String>>,
        deleted: Option<Result<(), String>>,
    ) -> (step: RenameStep)
        ensures
            step@ == rename_step(bucket@, old_key@, new_key@, reply_view(copied), reply_view(deleted)),
    {
        match copied {
            None => RenameStep::Copy(Self::copy_object(bucket, old_key, bucket, new_key)),
            Some(Err(description)) => RenameStep::Done(Err(AppError::BackendError(description))),
            Some(Ok(_)) => match deleted {
                None => RenameStep::Delete { key: old_key.to_owned() },
                Some(Err(description)) => RenameStep::Done(Err(AppError::BackendError(description))),
                Some(Ok(_)) => RenameStep::Done(Ok(())),
            },
        }
    }

    /// Whether a bucket exists: it does when the head request succeeds, and
    /// does not when the backend's failure says that it was not found. Any
    /// other failure stays a failure.
    pub fn head_bucket(reply: Result<(), String>) -> (result: AppResult<bool>)
        ensures
            match reply {
                Ok(_) => result == Ok::<bool, AppError>(true),
                Err(description) => if says_not_found(description@) {
                    result == Ok::<bool, AppError>(false)
                } else {
                    result matches Err(e) && e@ == AppErrorView::BackendError(description@)
                },
            },
    {
        match reply {
            Ok(_) => Ok(true),
            Err(description) => {
                if contains(description.as_str(), "404") || contains(
                    description.as_str(),
                    "NotFound",
                ) {
                    Ok(false)
                } else {
                    Err(AppError::BackendError(description))
                }
            },
        }
    }

    /// The request to presign a download of `key` in `bucket` that is valid
    /// for `expires_in_secs` seconds. A validity of more than one week is
    /// refused, as the SDK refuses it. That the object exists is not asked.
    pub fn get_presigned_url(bucket: &str, key: &str, expires_in_secs: u64) -> (request: AppResult<
        PresignRequest,
    >)
        ensures
            expires_in_secs <= MAX_PRESIGN_SECS ==> (request matches Ok(r) && r.bucket@ == bucket@
                && r.key@ == key@ && r.expires_in_secs == expires_in_secs && validity_held(r.config)
                == expires_in_secs),
            expires_in_secs > MAX_PRESIGN_SECS ==> (request matches Err(e) && e@
                == presign_refusal()),
    {
        match presigning_config(expires_in_secs) {
            Ok(config) => Ok(
                PresignRequest {
                    bucket: bucket.to_owned(),
                    key: key.to_owned(),
                    expires_in_secs,
                    config,
                },
            ),
            Err(refusal) => Err(AppError::BackendError(refusal)),
        }
    }
}

} // verus!
