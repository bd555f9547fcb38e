pub mod aws_api;
pub mod buckets;
pub mod config_service;
pub mod credential_service;
pub mod listing;
pub mod objects;
pub mod opendal_api;
pub mod s3_service;
pub mod stats;
pub mod store_model;

pub use config_service::{ConfigFile, ConfigService};
pub use credential_service::CredentialService;
pub use s3_service::{ClientSettings, OperatorSettings, ProviderProfile, S3Service};
