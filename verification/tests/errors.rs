use baul::error::{backend_failure, backend_result, AppError};

#[test]
fn each_kind_of_error_has_its_message() {
    assert_eq!(
        AppError::BackendError("access denied".to_string()).message(),
        "S3 operation failed: access denied"
    );
    assert_eq!(
        AppError::ConfigError("no directory".to_string()).message(),
        "Configuration error: no directory"
    );
    assert_eq!(
        AppError::ConnectionNotFound("c-17".to_string()).message(),
        "Connection not found: c-17"
    );
    assert_eq!(AppError::IoError("disk full".to_string()).message(), "IO error: disk full");
    assert_eq!(
        AppError::SerializationError("expected value".to_string()).message(),
        "Serialization error: expected value"
    );
    assert_eq!(
        AppError::CredentialStoreError("locked".to_string()).message(),
        "Keyring error: locked"
    );
    assert_eq!(
        AppError::EncodingError("invalid byte".to_string()).message(),
        "Not a valid UTF-8 text file: invalid byte"
    );
}

#[test]
fn the_size_limit_message_names_both_sizes() {
    let error = AppError::SizeLimitExceeded { size: 2097152, max_size: 1048576 };
    assert_eq!(
        error.message(),
        "File too large for text preview: 2097152 bytes (max: 1048576 bytes)"
    );
    let empty = AppError::SizeLimitExceeded { size: 1, max_size: 0 };
    assert_eq!(empty.message(), "File too large for text preview: 1 bytes (max: 0 bytes)");
}

#[test]
fn a_backend_failure_keeps_the_backend_s_words() {
    assert_eq!(
        backend_failure("timeout after 30s".to_string()),
        AppError::BackendError("timeout after 30s".to_string())
    );
    assert_eq!(
        backend_result::<u8>(Err("timeout".to_string())),
        Err(AppError::BackendError("timeout".to_string()))
    );
    assert_eq!(backend_result(Ok(5u8)), Ok(5u8));
}

#[test]
fn an_error_is_copied_whole() {
    let error = AppError::SizeLimitExceeded { size: 9, max_size: 3 };
    assert_eq!(error.clone(), error);
    let other = AppError::ConnectionNotFound("x".to_string());
    assert_eq!(other.clone(), other);
}
