//! What this library takes on trust of the AWS SDK: the configuration of the
//! administrative client and of a presigned request. Nothing here is proved;
//! each item says what it claims.

use vstd::prelude::*;

verus! {

/// `aws_sdk_s3::config::Builder`, the builder of a client configuration. Its
/// settings are hidden.
#[verifier::external_type_specification]
#[verifier::external_body]
pub struct ExConfigBuilder(aws_sdk_s3::config::Builder);

/// `aws_sdk_s3::Client`, the handle for bucket-level and metadata calls.
#[verifier::external_type_specification]
#[verifier::external_body]
pub struct ExClient(aws_sdk_s3::Client);

/// `aws_sdk_s3::presigning::PresigningConfig`: for how long a presigned
/// request is valid, and from when.
#[verifier::external_type_specification]
#[verifier::external_body]
pub struct ExPresigningConfig(aws_sdk_s3::presigning::PresigningConfig);

/// `aws_sdk_s3::types::CreateBucketConfiguration`: what a bucket is created
/// with, among it the location constraint.
#[verifier::external_type_specification]
#[verifier::external_body]
pub struct ExCreateBucketConfiguration(aws_sdk_s3::types::CreateBucketConfiguration);

/// The longest time, in seconds, that a presigned request may be valid for:
/// one week.
pub const MAX_PRESIGN_SECS: u64 = 604800;

/// What a client configuration holds of the four things this library sets:
/// each is `None` as long as it was not set.
pub struct ClientSetup {
    /// The access key id and the secret access key of the static
    /// credentials that requests are signed with.
    pub credentials: Option<(Seq<char>, Seq<char>)>,
    /// The name of the region.
    pub region: Option<Seq<char>>,
    /// Whether buckets are addressed in path style.
    pub force_path_style: Option<bool>,
    /// The endpoint that requests go to.
    pub endpoint_url: Option<Seq<char>>,
}

/// The location constraint that a bucket configuration names, as the text
/// that is sent.
pub uninterp spec fn constraint_held(
    configuration: aws_sdk_s3::types::CreateBucketConfiguration,
) -> Option<Seq<char>>;

/// For how many seconds a presigning configuration makes a request valid.
pub uninterp spec fn validity_held(config: aws_sdk_s3::presigning::PresigningConfig) -> u64;

/// What a configuration builder holds.
pub uninterp spec fn builder_setup(builder: aws_sdk_s3::config::Builder) -> ClientSetup;

/// What the configuration of a client holds.
pub uninterp spec fn client_setup(client: aws_sdk_s3::Client) -> ClientSetup;

/// Calls `Config::builder`, which gives a builder that holds nothing yet.
#[verifier::external_body]
pub(crate) fn new_config_builder() -> (builder: aws_sdk_s3::config::Builder)
    ensures
        builder_setup(builder) == (ClientSetup {
            credentials: None,
            region: None,
            force_path_style: None,
            endpoint_url: None,
        }),
{
    aws_sdk_s3::Config::builder()
}

/// Calls `Builder::credentials_provider` with the `Credentials` that
/// `Credentials::new` makes of the two keys, without session token and
/// expiry, under `provider_name`. The builder then holds these credentials
/// as the identity to sign with, and what else it held.
#[verifier::external_body]
pub(crate) fn with_credentials(
    builder: aws_sdk_s3::config::Builder,
    access_key: &str,
    secret_key: &str,
    provider_name: &'static str,
) -> (out: aws_sdk_s3::config::Builder)
    ensures
        builder_setup(out) == (ClientSetup {
            credentials: Some((access_key@, secret_key@)),
            ..builder_setup(builder)
        }),
{
    let credentials = aws_credential_types::Credentials::new(
        access_key,
        secret_key,
        None,
        None,
        provider_name,
    );
    builder.credentials_provider(credentials)
}

/// Calls `Builder::region` with the `Region` of the given name. The builder
/// then holds this region, and what else it held.
#[verifier::external_body]
pub(crate) fn with_region(
    builder: aws_sdk_s3::config::Builder,
    region: &str,
) -> (out: aws_sdk_s3::config::Builder)
    ensures
        builder_setup(out) == (ClientSetup { region: Some(region@), ..builder_setup(builder) }),
{
    builder.region(aws_sdk_s3::config::Region::new(region.to_owned()))
}

/// Calls `Builder::force_path_style`. The builder then holds this choice of
/// addressing, and what else it held.
#[verifier::external_body]
pub(crate) fn with_path_style(
    builder: aws_sdk_s3::config::Builder,
    force_path_style: bool,
) -> (out: aws_sdk_s3::config::Builder)
    ensures
        builder_setup(out) == (ClientSetup {
            force_path_style: Some(force_path_style),
            ..builder_setup(builder)
        }),
{
    builder.force_path_style(force_path_style)
}

/// Calls `Builder::endpoint_url`. The builder then holds this endpoint, and
/// what else it held.
#[verifier::external_body]
pub(crate) fn with_endpoint_url(
    builder: aws_sdk_s3::config::Builder,
    endpoint_url: &str,
) -> (out: aws_sdk_s3::config::Builder)
    ensures
        builder_setup(out) == (ClientSetup {
            endpoint_url: Some(endpoint_url@),
            ..builder_setup(builder)
        }),
{
    builder.endpoint_url(endpoint_url)
}

/// Calls `Builder::build` and `Client::from_conf` on what it gives. The
/// client's configuration holds what the builder held: `build` adds to it
/// and takes nothing away, and `from_conf` keeps the configuration as it
/// is. `from_conf` stops the program where the configuration names no
/// behavior version or lacks a sleep implementation; this crate is built
/// with the SDK features that supply both. No request is sent.
#[verifier::external_body]
pub(crate) fn client_from(builder: aws_sdk_s3::config::Builder) -> (client: aws_sdk_s3::Client)
    ensures
        client_setup(client) == builder_setup(builder),
{
    aws_sdk_s3::Client::from_conf(builder.build())
}

/// Calls `CreateBucketConfiguration::builder`, then `location_constraint`
/// with the `BucketLocationConstraint` that the SDK makes `from` the
/// region's name, then `build`. The configuration names the region as its
/// location constraint: the SDK keeps a name that it knows as the variant
/// of that name and any other name as it is, and writes both out as the
/// text that came in.
#[verifier::external_body]
pub(crate) fn bucket_configuration(
    region: &str,
) -> (configuration: aws_sdk_s3::types::CreateBucketConfiguration)
    ensures
        constraint_held(configuration) == Some(region@),
{
    let constraint = aws_sdk_s3::types::BucketLocationConstraint::from(region);
    aws_sdk_s3::types::CreateBucketConfiguration::builder().location_constraint(constraint).build()
}

/// Calls `PresigningConfig::expires_in` with a duration of
/// `expires_in_secs` seconds, and writes a refusal out with `to_string`.
/// The SDK refuses exactly the durations of more than one week, with the
/// text given here, and a configuration that it makes keeps the duration
/// as it came.
#[verifier::external_body]
pub(crate) fn presigning_config(expires_in_secs: u64) -> (config: Result<
    aws_sdk_s3::presigning::PresigningConfig,
    String,
>)
    ensures
        config is Ok <==> expires_in_secs <= MAX_PRESIGN_SECS,
        config matches Ok(made) ==> validity_held(made) == expires_in_secs,
        config matches Err(refusal) ==> refusal@ == "`expires_in` must be no longer than one week"@,
{
    let validity = std::time::Duration::from_secs(expires_in_secs);
    match aws_sdk_s3::presigning::PresigningConfig::expires_in(validity) {
        Ok(config) => Ok(config),
        Err(refusal) => Err(refusal.to_string()),
    }
}

} // verus!
