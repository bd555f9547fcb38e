//! Connection records: which backend to talk to, and with which identity.

use vstd::prelude::*;
use vstd::std_specs::convert::FromSpecImpl;

verus! {

/// Which S3-compatible service a connection talks to.
#[derive(Debug, Clone, Copy, PartialEq, Eq, Structural)]
pub enum S3Provider {
    Aws,
    Minio,
    CloudflareR2,
    Digitalocean,
    Backblaze,
    Wasabi,
    Custom,
}

impl Default for S3Provider {
    fn default() -> (provider: Self)
        ensures
            provider == S3Provider::Custom,
    {
        S3Provider::Custom
    }
}

/// A connection as it is persisted and shown: without the secret key.
#[derive(Debug, PartialEq, Eq)]
pub struct S3Connection {
    pub id: String,
    pub name: String,
    pub provider: S3Provider,
    pub endpoint: String,
    pub region: String,
    pub access_key: String,
    pub use_ssl: bool,
    pub use_path_style: bool,
    pub created_at: i64,
    pub updated_at: i64,
}

/// The mathematical value of an [`S3Connection`].
pub struct S3ConnectionView {
    pub id: Seq<char>,
    pub name: Seq<char>,
    pub provider: S3Provider,
    pub endpoint: Seq<char>,
    pub region: Seq<char>,
    pub access_key: Seq<char>,
    pub use_ssl: bool,
    pub use_path_style: bool,
    pub created_at: i64,
    pub updated_at: i64,
}

impl View for S3Connection {
    type V = S3ConnectionView;

    open spec fn view(&self) -> S3ConnectionView {
        S3ConnectionView {
            id: self.id@,
            name: self.name@,
            provider: self.provider,
            endpoint: self.endpoint@,
            region: self.region@,
            access_key: self.access_key@,
            use_ssl: self.use_ssl,
            use_path_style: self.use_path_style,
            created_at: self.created_at,
            updated_at: self.updated_at,
        }
    }
}

impl DeepView for S3Connection {
    type V = S3ConnectionView;

    open spec fn deep_view(&self) -> S3ConnectionView {
        self@
    }
}

impl Clone for S3Connection {
    fn clone(&self) -> (copy: Self)
        ensures
            copy@ == self@,
    {
        S3Connection {
            id: self.id.clone(),
            name: self.name.clone(),
            provider: self.provider,
            endpoint: self.endpoint.clone(),
            region: self.region.clone(),
            access_key: self.access_key.clone(),
            use_ssl: self.use_ssl,
            use_path_style: self.use_path_style,
            created_at: self.created_at,
            updated_at: self.updated_at,
        }
    }
}

/// A connection in use: the record together with its secret key, which is
/// held only while the connection is registered and never persisted.
#[derive(Debug, PartialEq, Eq)]
pub struct S3ConnectionWithSecret {
    pub id: String,
    pub name: String,
    pub provider: S3Provider,
    pub endpoint: String,
    pub region: String,
    pub access_key: String,
    pub secret_key: String,
    pub use_ssl: bool,
    pub use_path_style: bool,
    pub created_at: i64,
    pub updated_at: i64,
}

/// The mathematical value of an [`S3ConnectionWithSecret`].
pub struct S3ConnectionWithSecretView {
    pub id: Seq<char>,
    pub name: Seq<char>,
    pub provider: S3Provider,
    pub endpoint: Seq<char>,
    pub region: Seq<char>,
    pub access_key: Seq<char>,
    pub secret_key: Seq<char>,
    pub use_ssl: bool,
    pub use_path_style: bool,
    pub created_at: i64,
    pub updated_at: i64,
}

impl S3ConnectionWithSecretView {
    /// The record with the secret key left out.
    pub open spec fn public(self) -> S3ConnectionView {
        S3ConnectionView {
            id: self.id,
            name: self.name,
            provider: self.provider,
            endpoint: self.endpoint,
            region: self.region,
            access_key: self.access_key,
            use_ssl: self.use_ssl,
            use_path_style: self.use_path_style,
            created_at: self.created_at,
            updated_at: self.updated_at,
        }
    }
}

impl S3ConnectionView {
    /// The record with `secret_key` attached.
    pub open spec fn with_secret(self, secret_key: Seq<char>) -> S3ConnectionWithSecretView {
        S3ConnectionWithSecretView {
            id: self.id,
            name: self.name,
            provider: self.provider,
            endpoint: self.endpoint,
            region: self.region,
            access_key: self.access_key,
            secret_key,
            use_ssl: self.use_ssl,
            use_path_style: self.use_path_style,
            created_at: self.created_at,
            updated_at: self.updated_at,
        }
    }
}

impl View for S3ConnectionWithSecret {
    type V = S3ConnectionWithSecretView;

    open spec fn view(&self) -> S3ConnectionWithSecretView {
        S3ConnectionWithSecretView {
            id: self.id@,
            name: self.name@,
            provider: self.provider,
            endpoint: self.endpoint@,
            region: self.region@,
            access_key: self.access_key@,
            secret_key: self.secret_key@,
            use_ssl: self.use_ssl,
            use_path_style: self.use_path_style,
            created_at: self.created_at,
            updated_at: self.updated_at,
        }
    }
}

impl DeepView for S3ConnectionWithSecret {
    type V = S3ConnectionWithSecretView;

    open spec fn deep_view(&self) -> S3ConnectionWithSecretView {
        self@
    }
}

impl Clone for S3ConnectionWithSecret {
    fn clone(&self) -> (copy: Self)
        ensures
            copy@ == self@,
    {
        S3ConnectionWithSecret {
            id: self.id.clone(),
            name: self.name.clone(),
            provider: self.provider,
            endpoint: self.endpoint.clone(),
            region: self.region.clone(),
            access_key: self.access_key.clone(),
            secret_key: self.secret_key.clone(),
            use_ssl: self.use_ssl,
            use_path_style: self.use_path_style,
            created_at: self.created_at,
            updated_at: self.updated_at,
        }
    }
}

impl From<S3ConnectionWithSecret> for S3Connection {
    fn from(conn: S3ConnectionWithSecret) -> (record: Self) {
        S3Connection {
            id: conn.id,
            name: conn.name,
            provider: conn.provider,
            endpoint: conn.endpoint,
            region: conn.region,
            access_key: conn.access_key,
            use_ssl: conn.use_ssl,
            use_path_style: conn.use_path_style,
            created_at: conn.created_at,
            updated_at: conn.updated_at,
        }
    }
}

impl FromSpecImpl<S3ConnectionWithSecret> for S3Connection {
    open spec fn obeys_from_spec() -> bool {
        true
    }

    open spec fn from_spec(conn: S3ConnectionWithSecret) -> Self {
        S3Connection {
            id: conn.id,
            name: conn.name,
            provider: conn.provider,
            endpoint: conn.endpoint,
            region: conn.region,
            access_key: conn.access_key,
            use_ssl: conn.use_ssl,
            use_path_style: conn.use_path_style,
            created_at: conn.created_at,
            updated_at: conn.updated_at,
        }
    }
}

impl S3ConnectionWithSecret {
    /// The record as it is persisted and shown: every field but the secret key.
    pub fn public(&self) -> (record: S3Connection)
        ensures
            record@ == self@.public(),
    {
        S3Connection {
            id: self.id.clone(),
            name: self.name.clone(),
            provider: self.provider,
            endpoint: self.endpoint.clone(),
            region: self.region.clone(),
            access_key: self.access_key.clone(),
            use_ssl: self.use_ssl,
            use_path_style: self.use_path_style,
            created_at: self.created_at,
            updated_at: self.updated_at,
        }
    }
}

impl S3Connection {
    /// The record with `secret_key` attached, ready for use.
    pub fn with_secret(self, secret_key: String) -> (conn: S3ConnectionWithSecret)
        ensures
            conn@ == self@.with_secret(secret_key@),
    {
        S3ConnectionWithSecret {
            id: self.id,
            name: self.name,
            provider: self.provider,
            endpoint: self.endpoint,
            region: self.region,
            access_key: self.access_key,
            secret_key,
            use_ssl: self.use_ssl,
            use_path_style: self.use_path_style,
            created_at: self.created_at,
            updated_at: self.updated_at,
        }
    }
}

/// Dropping the secret after attaching one gives the record back, and the
/// conversion keeps every persisted field.
pub proof fn public_of_with_secret(record: S3ConnectionView, secret_key: Seq<char>)
    ensures
        record.with_secret(secret_key).public() == record,
        record.with_secret(secret_key).secret_key == secret_key,
{
}

} // verus!
