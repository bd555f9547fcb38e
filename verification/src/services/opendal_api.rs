//! What this library takes on trust of the `opendal` crate: the construction
//! of the storage operator of one bucket. Nothing here is proved; each item
//! says what it claims.

use vstd::prelude::*;
use crate::services::s3_service::OperatorSettings;

verus! {

/// `opendal::Operator`, the handle for object I/O on one bucket.
#[verifier::external_type_specification]
#[verifier::external_body]
pub struct ExOperator(opendal::Operator);

/// `opendal::Error`, the error of every opendal function.
#[verifier::external_type_specification]
#[verifier::external_body]
pub struct ExOpendalError(opendal::Error);

/// How many keys one batch delete carries where the settings set no cap:
/// opendal's own default.
pub const DEFAULT_DELETE_MAX_SIZE: usize = 1000;

/// What a storage operator holds of what it was built with.
pub struct OperatorSetup {
    /// The bucket that every request goes to.
    pub bucket: Seq<char>,
    /// The address that requests are sent to.
    pub endpoint: Seq<char>,
    /// The region that requests are signed for.
    pub region: Seq<char>,
    /// The access key id to sign with, where one is configured.
    pub access_key_id: Option<Seq<char>>,
    /// The secret access key to sign with, where one is configured.
    pub secret_access_key: Option<Seq<char>>,
    /// How many keys one batch delete carries at most.
    pub delete_max_size: usize,
}

/// What a storage operator holds.
pub uninterp spec fn operator_setup(operator: opendal::Operator) -> OperatorSetup;

/// The address that opendal sends the requests for a bucket to, given the
/// endpoint that is configured: what `S3Builder::endpoint` keeps of the
/// endpoint and `S3Builder::build_endpoint` makes of that, the region, the
/// bucket's name and the addressing.
pub uninterp spec fn request_endpoint(
    endpoint: Seq<char>,
    region: Seq<char>,
    bucket: Seq<char>,
    virtual_host_style: bool,
) -> Seq<char>;

/// Makes the S3 service builder of the settings and calls `Operator::new`
/// on it, then `OperatorBuilder::finish`. The cap on batch deletes and the
/// addressing go into an `S3Config`, which `into_builder` turns into the
/// builder; bucket, endpoint, region and keys go through the builder's
/// setters of these names.
///
/// The claims are what `S3Builder::build` shows. It refuses a bucket name
/// that is empty, or that holds a `.` under virtual-host addressing, before
/// it looks at anything else. After that it fails only for want of a
/// region: where the settings name one, the build succeeds; where they name
/// none, the build succeeds exactly if the AWS profile or the environment
/// of the process names one, and nothing is claimed. No request is sent.
///
/// An operator that is built holds the bucket and the cap of the settings,
/// or opendal's default cap where they set none. Each setter keeps a text
/// only if it is not empty, and `build` lets what the settings name take
/// precedence over the profile and the environment; so the operator holds
/// the region and each key of the settings where that is not empty. Where
/// the endpoint is not empty it holds the address that opendal makes of
/// it, of the region it holds, of the bucket and of the addressing. The
/// endpoint is not examined beyond that.
///
/// Every build reads the AWS profile and the environment of the process.
/// That stops the program where an environment variable is not Unicode,
/// and where the profile's `duration_seconds` is not a number. The first
/// build of a process sets up opendal's HTTP client, which stops the
/// program where the TLS backend cannot be set up or the system's resolver
/// configuration cannot be loaded.
#[verifier::external_body]
pub(crate) fn open_operator(settings: &OperatorSettings) -> (built: Result<
    opendal::Operator,
    opendal::Error,
>)
    ensures
        !settings@.names_a_bucket() ==> built is Err,
        settings@.names_a_bucket() && settings@.region.len() > 0 ==> built is Ok,
        built matches Ok(operator) ==> {
            let held = operator_setup(operator);
            &&& held.bucket == settings@.bucket
            &&& held.delete_max_size == match settings@.delete_max_size {
                Some(cap) => cap,
                None => DEFAULT_DELETE_MAX_SIZE,
            }
            &&& settings@.region.len() > 0 ==> held.region == settings@.region
            &&& settings@.access_key_id.len() > 0 ==> held.access_key_id == Some(
                settings@.access_key_id,
            )
            &&& settings@.secret_access_key.len() > 0 ==> held.secret_access_key == Some(
                settings@.secret_access_key,
            )
            &&& settings@.endpoint.len() > 0 ==> held.endpoint == request_endpoint(
                settings@.endpoint,
                held.region,
                settings@.bucket,
                settings@.virtual_host_style,
            )
        },
{
    let mut config = opendal::services::S3Config::default();
    config.delete_max_size = settings.delete_max_size;
    config.enable_virtual_host_style = settings.virtual_host_style;
    let builder = opendal::Configurator::into_builder(config)
        .bucket(settings.bucket.as_str())
        .endpoint(settings.endpoint.as_str())
        .region(settings.region.as_str())
        .access_key_id(settings.access_key_id.as_str())
        .secret_access_key(settings.secret_access_key.as_str());
    match opendal::Operator::new(builder) {
        Ok(unfinished) => Ok(unfinished.finish()),
        Err(error) => Err(error),
    }
}

/// Writes an `opendal::Error` out with `to_string`. Nothing is claimed of
/// the text.
#[verifier::external_body]
pub(crate) fn describe_error(error: &opendal::Error) -> (description: String) {
    error.to_string()
}

} // verus!
