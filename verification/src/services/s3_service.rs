//! The storage service: the client factory, and every operation on buckets
//! and objects stated as what is asked of the backend and what is made of
//! its answer.

use vstd::prelude::*;
use vstd::string::*;
use crate::error::{backend_failure, AppResult};
use crate::models::{S3ConnectionWithSecret, S3ConnectionWithSecretView, S3Provider};
use crate::services::aws_api::{
    client_from, client_setup, new_config_builder, with_credentials, with_endpoint_url,
    with_path_style, with_region, ClientSetup,
};
use crate::services::opendal_api::{
    describe_error, open_operator, operator_setup, request_endpoint, OperatorSetup,
    DEFAULT_DELETE_MAX_SIZE,
};

verus! {

/// The operations on buckets and objects.
pub struct S3Service;

/// The name under which the administrative client presents its credentials.
pub const CREDENTIALS_PROVIDER_NAME: &'static str = "baul-s3-client";

/// What is particular to one provider.
#[derive(Debug, Clone, Copy, PartialEq, Eq, Structural)]
pub struct ProviderProfile {
    /// The largest number of keys one batch delete may carry, where the
    /// provider caps it.
    pub delete_max_size: Option<usize>,
}

/// The profile of each provider: Cloudflare R2 takes at most 700 keys in a
/// batch delete, the others set no cap of their own.
pub open spec fn profile_of(provider: S3Provider) -> ProviderProfile {
    ProviderProfile {
        delete_max_size: if provider == S3Provider::CloudflareR2 {
            Some(700usize)
        } else {
            None
        },
    }
}

impl S3Provider {
    /// The provider's profile.
    pub fn profile(self) -> (profile: ProviderProfile)
        ensures
            profile == profile_of(self),
    {
        match self {
            S3Provider::CloudflareR2 => ProviderProfile { delete_max_size: Some(700) },
            _ => ProviderProfile { delete_max_size: None },
        }
    }
}

/// How the storage operator of one bucket is set up.
#[derive(Debug, PartialEq, Eq)]
pub struct OperatorSettings {
    pub bucket: String,
    pub endpoint: String,
    pub region: String,
    pub access_key_id: String,
    pub secret_access_key: String,
    pub delete_max_size: Option<usize>,
    pub virtual_host_style: bool,
}

/// The mathematical value of an [`OperatorSettings`].
pub struct OperatorSettingsView {
    pub bucket: Seq<char>,
    pub endpoint: Seq<char>,
    pub region: Seq<char>,
    pub access_key_id: Seq<char>,
    pub secret_access_key: Seq<char>,
    pub delete_max_size: Option<usize>,
    pub virtual_host_style: bool,
}

impl OperatorSettingsView {
    /// Whether the bucket's name can be addressed: it is not empty, and
    /// under virtual-host addressing, where it becomes part of the host's
    /// name, it holds no `.`.
    pub open spec fn names_a_bucket(self) -> bool {
        self.bucket.len() > 0 && !(self.virtual_host_style && self.bucket.contains('.'))
    }

    /// Whether the settings are enough to build the operator whatever the
    /// environment of the process holds: the bucket can be addressed and
    /// the region is named.
    pub open spec fn complete(self) -> bool {
        self.names_a_bucket() && self.region.len() > 0
    }

    /// Whether an operator that holds `setup` is set up as the settings
    /// say. It is scoped to the bucket and carries the cap on batch
    /// deletes, or the backend library's default where the settings set
    /// none. It signs for the region and with the keys of the settings, and
    /// sends its requests to the address that the backend library makes of
    /// the endpoint under the addressing of the settings; each of these as
    /// far as the settings name it, since for a text that is empty the
    /// backend library turns to the environment of the process.
    pub open spec fn held_by(self, setup: OperatorSetup) -> bool {
        &&& setup.bucket == self.bucket
        &&& setup.delete_max_size == match self.delete_max_size {
            Some(cap) => cap,
            None => DEFAULT_DELETE_MAX_SIZE,
        }
        &&& self.region.len() > 0 ==> setup.region == self.region
        &&& self.access_key_id.len() > 0 ==> setup.access_key_id == Some(self.access_key_id)
        &&& self.secret_access_key.len() > 0 ==> setup.secret_access_key == Some(
            self.secret_access_key,
        )
        &&& self.endpoint.len() > 0 ==> setup.endpoint == request_endpoint(
            self.endpoint,
            setup.region,
            self.bucket,
            self.virtual_host_style,
        )
    }
}

impl View for OperatorSettings {
    type V = OperatorSettingsView;

    open spec fn view(&self) -> OperatorSettingsView {
        OperatorSettingsView {
            bucket: self.bucket@,
            endpoint: self.endpoint@,
            region: self.region@,
            access_key_id: self.access_key_id@,
            secret_access_key: self.secret_access_key@,
            delete_max_size: self.delete_max_size,
            virtual_host_style: self.virtual_host_style,
        }
    }
}

/// The settings of the storage operator for `bucket` under `connection`:
/// the connection's endpoint, region and keys; the provider's cap on batch
/// deletes, whatever the addressing; and virtual-host addressing exactly
/// when the connection does not ask for path style.
pub open spec fn operator_settings_of(
    connection: S3ConnectionWithSecretView,
    bucket: Seq<char>,
) -> OperatorSettingsView {
    OperatorSettingsView {
        bucket,
        endpoint: connection.endpoint,
        region: connection.region,
        access_key_id: connection.access_key,
        secret_access_key: connection.secret_key,
        delete_max_size: profile_of(connection.provider).delete_max_size,
        virtual_host_style: !connection.use_path_style,
    }
}

/// How the administrative client of one connection is set up.
#[derive(Debug, PartialEq, Eq)]
pub struct ClientSettings {
    pub access_key: String,
    pub secret_key: String,
    pub region: String,
    pub force_path_style: bool,
    /// The endpoint to talk to; `None` leaves the SDK's own endpoint.
    pub endpoint_url: Option<String>,
}

/// The mathematical value of a [`ClientSettings`].
pub struct ClientSettingsView {
    pub access_key: Seq<char>,
    pub secret_key: Seq<char>,
    pub region: Seq<char>,
    pub force_path_style: bool,
    pub endpoint_url: Option<Seq<char>>,
}

impl ClientSettingsView {
    /// What a client that is built from the settings holds: the keys as
    /// the credentials to sign with, the region, the choice of addressing,
    /// and the endpoint where one is named.
    pub open spec fn setup(self) -> ClientSetup {
        ClientSetup {
            credentials: Some((self.access_key, self.secret_key)),
            region: Some(self.region),
            force_path_style: Some(self.force_path_style),
            endpoint_url: self.endpoint_url,
        }
    }
}

impl View for ClientSettings {
    type V = ClientSettingsView;

    open spec fn view(&self) -> ClientSettingsView {
        ClientSettingsView {
            access_key: self.access_key@,
            secret_key: self.secret_key@,
            region: self.region@,
            force_path_style: self.force_path_style,
            endpoint_url: self.endpoint_url.deep_view(),
        }
    }
}

/// The settings of the administrative client under `connection`: its keys
/// and region, path style as the connection asks, and its endpoint unless
/// that is empty.
pub open spec fn client_settings_of(connection: S3ConnectionWithSecretView) -> ClientSettingsView {
    ClientSettingsView {
        access_key: connection.access_key,
        secret_key: connection.secret_key,
        region: connection.region,
        force_path_style: connection.use_path_style,
        endpoint_url: if connection.endpoint.len() == 0 {
            None
        } else {
            Some(connection.endpoint)
        },
    }
}

impl S3Service {
    /// The settings of the storage operator for `bucket` under `connection`.
    pub fn operator_settings(
        connection: &S3ConnectionWithSecret,
        bucket: &str,
    ) -> (settings: OperatorSettings)
        ensures
            settings@ == operator_settings_of(connection@, bucket@),
    {
        OperatorSettings {
            bucket: bucket.to_owned(),
            endpoint: connection.endpoint.clone(),
            region: connection.region.clone(),
            access_key_id: connection.access_key.clone(),
            secret_access_key: connection.secret_key.clone(),
            delete_max_size: connection.provider.profile().delete_max_size,
            virtual_host_style: !connection.use_path_style,
        }
    }

    /// Builds the storage operator that `settings` describe. Complete
    /// settings give an operator, whatever the endpoint: no request is
    /// sent, and an endpoint that is malformed or cannot be reached shows
    /// at first use. The operator holds what the settings name. A bucket name that cannot be addressed is refused.
    /// Where only the region is missing, the backend library looks for one
    /// in the environment of the process and refuses if it finds none.
    /// Every refusal is reported as a backend error with the library's
    /// description.
    pub fn build_operator(settings: &OperatorSettings) -> (built: AppResult<opendal::Operator>)
        ensures
            settings@.complete() ==> built is Ok,
            !settings@.names_a_bucket() ==> built is Err,
            built matches Ok(operator) ==> settings@.held_by(operator_setup(operator)),
            built matches Err(error) ==> error is BackendError,
    {
        match open_operator(settings) {
            Ok(operator) => Ok(operator),
            Err(error) => Err(backend_failure(describe_error(&error))),
        }
    }

    /// Builds the storage operator for `bucket` under `connection`, set up
    /// as [`operator_settings_of`] says: it is built where these settings
    /// are complete, and refused with a backend error where the bucket's
    /// name cannot be addressed.
    pub fn create_operator(connection: &S3ConnectionWithSecret, bucket: &str) -> (built: AppResult<
        opendal::Operator,
    >)
        ensures
            operator_settings_of(connection@, bucket@).complete() ==> built is Ok,
            !operator_settings_of(connection@, bucket@).names_a_bucket() ==> built is Err,
            built matches Ok(operator) ==> operator_settings_of(connection@, bucket@).held_by(
                operator_setup(operator),
            ),
            built matches Err(error) ==> error is BackendError,
    {
        let settings = Self::operator_settings(connection, bucket);
        Self::build_operator(&settings)
    }

    /// The settings of the administrative client under `connection`.
    pub fn client_settings(connection: &S3ConnectionWithSecret) -> (settings: ClientSettings)
        ensures
            settings@ == client_settings_of(connection@),
    {
        ClientSettings {
            access_key: connection.access_key.clone(),
            secret_key: connection.secret_key.clone(),
            region: connection.region.clone(),
            force_path_style: connection.use_path_style,
            endpoint_url: if connection.endpoint.as_str().is_empty() {
                None
            } else {
                Some(connection.endpoint.clone())
            },
        }
    }

    /// Builds the administrative client that `settings` describe: its
    /// configuration holds the keys, the region, the choice of addressing
    /// and the endpoint of the settings, and no endpoint where they name
    /// none. No request is sent.
    pub fn build_client(settings: &ClientSettings) -> (client: aws_sdk_s3::Client)
        ensures
            client_setup(client) == settings@.setup(),
    {
        let mut builder = new_config_builder();
        builder = with_credentials(
            builder,
            settings.access_key.as_str(),
            settings.secret_key.as_str(),
            CREDENTIALS_PROVIDER_NAME,
        );
        builder = with_region(builder, settings.region.as_str());
        builder = with_path_style(builder, settings.force_path_style);
        if let Some(endpoint_url) = &settings.endpoint_url {
            builder = with_endpoint_url(builder, endpoint_url.as_str());
        }
        client_from(builder)
    }

    /// Builds the administrative client under `connection`: its
    /// configuration holds the connection's keys and region, path style as
    /// the connection asks, and the connection's endpoint unless that is
    /// empty.
    pub fn create_s3_client(connection: &S3ConnectionWithSecret) -> (client: aws_sdk_s3::Client)
        ensures
            client_setup(client) == client_settings_of(connection@).setup(),
    {
        let settings = Self::client_settings(connection);
        Self::build_client(&settings)
    }
}

} // verus!
