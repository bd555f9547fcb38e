use std::future::Future;
use std::time::Duration;

use baul::error::AppError;
use baul::models::{S3ConnectionWithSecret, S3Provider};
use baul::services::S3Service;

fn connection(provider: S3Provider, use_path_style: bool) -> S3ConnectionWithSecret {
    S3ConnectionWithSecret {
        id: "c1".to_string(),
        name: "local".to_string(),
        provider,
        endpoint: "http://127.0.0.1:9000".to_string(),
        region: "us-east-1".to_string(),
        access_key: "minio".to_string(),
        secret_key: "minio123".to_string(),
        use_ssl: false,
        use_path_style,
        created_at: 1,
        updated_at: 2,
    }
}

#[test]
fn operator_settings_follow_the_connection() {
    let settings = S3Service::operator_settings(&connection(S3Provider::Minio, true), "photos");
    assert_eq!(settings.bucket, "photos");
    assert_eq!(settings.endpoint, "http://127.0.0.1:9000");
    assert_eq!(settings.region, "us-east-1");
    assert_eq!(settings.access_key_id, "minio");
    assert_eq!(settings.secret_access_key, "minio123");
    assert_eq!(settings.delete_max_size, None);
    assert!(!settings.virtual_host_style);
}

#[test]
fn virtual_host_style_unless_path_style_is_asked_for() {
    let settings = S3Service::operator_settings(&connection(S3Provider::Aws, false), "photos");
    assert!(settings.virtual_host_style);
    assert_eq!(settings.delete_max_size, None);
}

#[test]
fn cloudflare_r2_caps_batch_deletes_whatever_the_addressing() {
    let path = S3Service::operator_settings(&connection(S3Provider::CloudflareR2, true), "b");
    assert_eq!(path.delete_max_size, Some(700));
    assert!(!path.virtual_host_style);
    let host = S3Service::operator_settings(&connection(S3Provider::CloudflareR2, false), "b");
    assert_eq!(host.delete_max_size, Some(700));
    assert!(host.virtual_host_style);
}

#[test]
fn only_cloudflare_r2_has_a_cap() {
    assert_eq!(S3Provider::CloudflareR2.profile().delete_max_size, Some(700));
    for provider in [
        S3Provider::Aws,
        S3Provider::Minio,
        S3Provider::Digitalocean,
        S3Provider::Backblaze,
        S3Provider::Wasabi,
        S3Provider::Custom,
    ] {
        assert_eq!(provider.profile().delete_max_size, None);
    }
}

#[test]
fn an_operator_is_built_without_reaching_the_endpoint() {
    let built = S3Service::create_operator(&connection(S3Provider::Minio, true), "photos");
    let operator = built.expect("an operator for a named bucket and region");
    assert_eq!(operator.info().name(), "photos");
}

#[test]
fn an_operator_for_cloudflare_r2_is_built() {
    let built = S3Service::create_operator(&connection(S3Provider::CloudflareR2, false), "photos");
    assert!(built.is_ok());
}

#[test]
fn a_refused_build_is_a_backend_error() {
    let built = S3Service::create_operator(&connection(S3Provider::Minio, true), "");
    match built {
        Err(AppError::BackendError(description)) => assert!(!description.is_empty()),
        other => panic!("an empty bucket name was accepted: {:?}", other.is_ok()),
    }
}

#[test]
fn client_settings_follow_the_connection() {
    let settings = S3Service::client_settings(&connection(S3Provider::Minio, true));
    assert_eq!(settings.access_key, "minio");
    assert_eq!(settings.secret_key, "minio123");
    assert_eq!(settings.region, "us-east-1");
    assert!(settings.force_path_style);
    assert_eq!(settings.endpoint_url, Some("http://127.0.0.1:9000".to_string()));
}

#[test]
fn an_empty_endpoint_leaves_the_endpoint_unset() {
    let mut conn = connection(S3Provider::Aws, false);
    conn.endpoint = String::new();
    let settings = S3Service::client_settings(&conn);
    assert_eq!(settings.endpoint_url, None);
    assert!(!settings.force_path_style);
}

#[test]
fn a_client_is_built_with_the_connection_s_settings() {
    let client = S3Service::create_s3_client(&connection(S3Provider::Minio, true));
    let region = client.config().region().map(|r| r.to_string());
    assert_eq!(region, Some("us-east-1".to_string()));
}

#[test]
fn a_client_without_endpoint_is_built() {
    let mut conn = connection(S3Provider::Aws, false);
    conn.endpoint = String::new();
    let client = S3Service::create_s3_client(&conn);
    assert_eq!(client.config().region().map(|r| r.to_string()), Some("us-east-1".to_string()));
}

#[test]
fn the_cap_on_batch_deletes_reaches_the_operator() {
    let capped = S3Service::create_operator(&connection(S3Provider::CloudflareR2, true), "b")
        .expect("an operator");
    assert_eq!(capped.info().native_capability().delete_max_size, Some(700));
    let plain =
        S3Service::create_operator(&connection(S3Provider::Minio, true), "b").expect("an operator");
    assert_eq!(plain.info().native_capability().delete_max_size, Some(1000));
}

#[test]
fn a_bucket_with_a_dot_needs_path_style() {
    let by_path = S3Service::create_operator(&connection(S3Provider::Aws, true), "my.bucket");
    assert_eq!(by_path.expect("an operator").info().name(), "my.bucket");
    let by_host = S3Service::create_operator(&connection(S3Provider::Aws, false), "my.bucket");
    assert!(matches!(by_host, Err(AppError::BackendError(_))));
    let plain = S3Service::create_operator(&connection(S3Provider::Aws, false), "mybucket");
    assert!(plain.is_ok());
}

#[test]
fn an_empty_bucket_is_refused_under_either_addressing() {
    for use_path_style in [true, false] {
        let built = S3Service::create_operator(&connection(S3Provider::Custom, use_path_style), "");
        assert!(matches!(built, Err(AppError::BackendError(_))));
    }
}

#[test]
fn the_endpoint_is_not_examined_when_the_operator_is_built() {
    for endpoint in ["", "not a url", "http://", "ftp://x y z", "localhost:1", "////"] {
        let mut conn = connection(S3Provider::Custom, true);
        conn.endpoint = endpoint.to_string();
        assert!(S3Service::create_operator(&conn, "photos").is_ok());
    }
}

#[test]
fn empty_keys_do_not_keep_the_operator_from_being_built() {
    let mut conn = connection(S3Provider::Custom, true);
    conn.access_key = String::new();
    conn.secret_key = String::new();
    assert!(S3Service::create_operator(&conn, "photos").is_ok());
}

#[test]
fn an_operator_is_built_from_settings_given_directly() {
    let settings = S3Service::operator_settings(&connection(S3Provider::Wasabi, false), "logs");
    let operator = S3Service::build_operator(&settings).expect("an operator");
    assert_eq!(operator.info().name(), "logs");
}

#[test]
fn without_a_region_the_environment_decides() {
    let mut conn = connection(S3Provider::Custom, true);
    conn.region = String::new();
    match S3Service::create_operator(&conn, "photos") {
        Ok(operator) => assert_eq!(operator.info().name(), "photos"),
        Err(error) => assert!(matches!(error, AppError::BackendError(_))),
    }
}

fn block_on<F: Future>(future: F) -> F::Output {
    tokio::runtime::Builder::new_current_thread()
        .enable_all()
        .build()
        .expect("a runtime")
        .block_on(future)
}

fn named_host(use_path_style: bool) -> S3ConnectionWithSecret {
    let mut conn = connection(S3Provider::Custom, use_path_style);
    conn.endpoint = "http://storage.test:9000".to_string();
    conn.region = "eu-west-7".to_string();
    conn.access_key = "AKIDEXAMPLE".to_string();
    conn.secret_key = "wJalrXUtnFEMI".to_string();
    conn
}

fn operator_address(conn: &S3ConnectionWithSecret, bucket: &str, key: &str) -> String {
    let operator = S3Service::create_operator(conn, bucket).expect("an operator");
    let request =
        block_on(operator.presign_read(key, Duration::from_secs(60))).expect("a signed request");
    request.uri().to_string()
}

fn client_address(conn: &S3ConnectionWithSecret, bucket: &str, key: &str, secs: u64) -> String {
    let client = S3Service::create_s3_client(conn);
    let request = S3Service::get_presigned_url(bucket, key, secs).expect("a request");
    let signed = block_on(
        client.get_object().bucket(request.bucket).key(request.key).presigned(request.config),
    )
    .expect("a signed request");
    signed.uri().to_string()
}

#[test]
fn the_operator_sends_to_the_endpoint_in_path_style() {
    let address = operator_address(&named_host(true), "photos", "k.txt");
    assert!(address.starts_with("http://storage.test:9000/photos/k.txt?"), "{}", address);
}

#[test]
fn the_operator_sends_to_the_endpoint_in_virtual_host_style() {
    let address = operator_address(&named_host(false), "photos", "k.txt");
    assert!(address.starts_with("http://photos.storage.test:9000/k.txt?"), "{}", address);
}

#[test]
fn the_operator_signs_with_the_connection_s_key_and_region() {
    let address = operator_address(&named_host(true), "photos", "k.txt");
    assert!(address.contains("X-Amz-Credential=AKIDEXAMPLE%2F"), "{}", address);
    assert!(address.contains("%2Feu-west-7%2Fs3%2Faws4_request"), "{}", address);
}

#[test]
fn the_client_sends_to_the_endpoint_in_path_style() {
    let address = client_address(&named_host(true), "photos", "k.txt", 900);
    assert!(address.starts_with("http://storage.test:9000/photos/k.txt?"), "{}", address);
}

#[test]
fn the_client_sends_to_the_endpoint_in_virtual_host_style() {
    let address = client_address(&named_host(false), "photos", "k.txt", 900);
    assert!(address.starts_with("http://photos.storage.test:9000/k.txt?"), "{}", address);
}

#[test]
fn the_client_signs_with_the_connection_s_key_and_region() {
    let address = client_address(&named_host(true), "photos", "k.txt", 900);
    assert!(address.contains("X-Amz-Credential=AKIDEXAMPLE%2F"), "{}", address);
    assert!(address.contains("%2Feu-west-7%2Fs3%2Faws4_request"), "{}", address);
}

#[test]
fn a_signed_request_is_valid_for_the_time_asked_for() {
    let address = client_address(&named_host(true), "photos", "k.txt", 900);
    assert!(address.contains("X-Amz-Expires=900"), "{}", address);
    let week = client_address(&named_host(true), "photos", "k.txt", 604800);
    assert!(week.contains("X-Amz-Expires=604800"), "{}", week);
}

#[test]
fn a_client_without_endpoint_sends_to_the_region_s_own() {
    let mut conn = named_host(false);
    conn.endpoint = String::new();
    conn.region = "eu-west-1".to_string();
    let address = client_address(&conn, "photos", "k.txt", 60);
    assert!(address.starts_with("https://photos.s3.eu-west-1.amazonaws.com/k.txt?"), "{}", address);
}
