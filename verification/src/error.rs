//! The one error taxonomy that every failure is reported in.

use vstd::prelude::*;
use vstd::string::*;
use crate::text::{join_text, decimal, decimal_text};

verus! {

/// Why an operation failed.
#[derive(Debug, PartialEq, Eq)]
pub enum AppError {
    /// The storage operator or the administrative client failed; the text is
    /// the backend's own description.
    BackendError(String),
    /// A local configuration or file-system problem.
    ConfigError(String),
    /// No connection with this id is registered.
    ConnectionNotFound(String),
    /// A local file could not be read or written.
    IoError(String),
    /// Persisted or imported JSON is malformed.
    SerializationError(String),
    /// The secret store failed.
    CredentialStoreError(String),
    /// A text preview would read more bytes than the caller allows.
    SizeLimitExceeded { size: u64, max_size: u64 },
    /// The content of a text preview is not valid UTF-8.
    EncodingError(String),
}

pub type AppResult<T> = Result<T, AppError>;

/// The mathematical value of an [`AppError`].
pub enum AppErrorView {
    BackendError(Seq<char>),
    ConfigError(Seq<char>),
    ConnectionNotFound(Seq<char>),
    IoError(Seq<char>),
    SerializationError(Seq<char>),
    CredentialStoreError(Seq<char>),
    SizeLimitExceeded { size: u64, max_size: u64 },
    EncodingError(Seq<char>),
}

impl AppErrorView {
    /// The text that describes the error to a user.
    pub open spec fn message(self) -> Seq<char> {
        match self {
            AppErrorView::BackendError(m) => "S3 operation failed: "@ + m,
            AppErrorView::ConfigError(m) => "Configuration error: "@ + m,
            AppErrorView::ConnectionNotFound(id) => "Connection not found: "@ + id,
            AppErrorView::IoError(m) => "IO error: "@ + m,
            AppErrorView::SerializationError(m) => "Serialization error: "@ + m,
            AppErrorView::CredentialStoreError(m) => "Keyring error: "@ + m,
            AppErrorView::SizeLimitExceeded { size, max_size } => size_limit_text(size, max_size),
            AppErrorView::EncodingError(m) => "Not a valid UTF-8 text file: "@ + m,
        }
    }
}

/// How an object of `size` bytes is refused under a cap of `max_size` bytes.
pub open spec fn size_limit_text(size: u64, max_size: u64) -> Seq<char> {
    "File too large for text preview: "@ + decimal(size as nat) + " bytes (max: "@ + decimal(
        max_size as nat,
    ) + " bytes)"@
}

impl View for AppError {
    type V = AppErrorView;

    open spec fn view(&self) -> AppErrorView {
        match *self {
            AppError::BackendError(m) => AppErrorView::BackendError(m@),
            AppError::ConfigError(m) => AppErrorView::ConfigError(m@),
            AppError::ConnectionNotFound(id) => AppErrorView::ConnectionNotFound(id@),
            AppError::IoError(m) => AppErrorView::IoError(m@),
            AppError::SerializationError(m) => AppErrorView::SerializationError(m@),
            AppError::CredentialStoreError(m) => AppErrorView::CredentialStoreError(m@),
            AppError::SizeLimitExceeded { size, max_size } => AppErrorView::SizeLimitExceeded {
                size,
                max_size,
            },
            AppError::EncodingError(m) => AppErrorView::EncodingError(m@),
        }
    }
}

impl DeepView for AppError {
    type V = AppErrorView;

    open spec fn deep_view(&self) -> AppErrorView {
        self@
    }
}

impl Clone for AppError {
    fn clone(&self) -> (copy: Self)
        ensures
            copy@ == self@,
    {
        match self {
            AppError::BackendError(m) => AppError::BackendError(m.clone()),
            AppError::ConfigError(m) => AppError::ConfigError(m.clone()),
            AppError::ConnectionNotFound(id) => AppError::ConnectionNotFound(id.clone()),
            AppError::IoError(m) => AppError::IoError(m.clone()),
            AppError::SerializationError(m) => AppError::SerializationError(m.clone()),
            AppError::CredentialStoreError(m) => AppError::CredentialStoreError(m.clone()),
            AppError::SizeLimitExceeded { size, max_size } => AppError::SizeLimitExceeded {
                size: *size,
                max_size: *max_size,
            },
            AppError::EncodingError(m) => AppError::EncodingError(m.clone()),
        }
    }
}

impl AppError {
    /// The text that describes the error to a user.
    pub fn message(&self) -> (text: String)
        ensures
            text@ == self@.message(),
    {
        match self {
            AppError::BackendError(m) => join_text("S3 operation failed: ", m.as_str()),
            AppError::ConfigError(m) => join_text("Configuration error: ", m.as_str()),
            AppError::ConnectionNotFound(id) => join_text("Connection not found: ", id.as_str()),
            AppError::IoError(m) => join_text("IO error: ", m.as_str()),
            AppError::SerializationError(m) => join_text("Serialization error: ", m.as_str()),
            AppError::CredentialStoreError(m) => join_text("Keyring error: ", m.as_str()),
            AppError::SizeLimitExceeded { size, max_size } => {
                let mut text = join_text("File too large for text preview: ", decimal_text(*size).as_str());
                text.append(" bytes (max: ");
                text.append(decimal_text(*max_size).as_str());
                text.append(" bytes)");
                text
            },
            AppError::EncodingError(m) => join_text("Not a valid UTF-8 text file: ", m.as_str()),
        }
    }
}

/// The error a failure of the backend is reported as: its description, kept
/// as it came.
pub fn backend_failure(description: String) -> (error: AppError)
    ensures
        error@ == AppErrorView::BackendError(description@),
{
    AppError::BackendError(description)
}

/// Reports what a backend call gave: its value, or its failure as an error
/// of the taxonomy.
pub fn backend_result<T>(reply: Result<T, String>) -> (result: AppResult<T>)
    ensures
        match reply {
            Ok(value) => result == Ok::<T, AppError>(value),
            Err(description) => result matches Err(e) && e@ == AppErrorView::BackendError(
                description@,
            ),
        },
{
    match reply {
        Ok(value) => Ok(value),
        Err(description) => Err(AppError::BackendError(description)),
    }
}

/// Reports what an operation on a local file gave: its value, or its
/// failure as an I/O error with the system's description.
pub fn io_result<T>(outcome: Result<T, String>) -> (result: AppResult<T>)
    ensures
        match outcome {
            Ok(value) => result == Ok::<T, AppError>(value),
            Err(description) => result matches Err(e) && e@ == AppErrorView::IoError(description@),
        },
{
    match outcome {
        Ok(value) => Ok(value),
        Err(description) => Err(AppError::IoError(description)),
    }
}

} // verus!
