use std::collections::HashMap;

use baul::commands::get_presigned_url;
use baul::error::AppError;
use baul::models::{BucketEntry, BucketInfo, S3ConnectionWithSecret, S3Provider};
use baul::services::buckets::{CopyRequest, CreateBucketRequest, RenameStep};
use baul::services::S3Service;

fn connection(region: &str) -> S3ConnectionWithSecret {
    S3ConnectionWithSecret {
        id: "c1".to_string(),
        name: "main".to_string(),
        provider: S3Provider::Aws,
        endpoint: String::new(),
        region: region.to_string(),
        access_key: "AK".to_string(),
        secret_key: "SK".to_string(),
        use_ssl: true,
        use_path_style: false,
        created_at: 0,
        updated_at: 0,
    }
}

/// A backend that keeps the objects of all buckets in memory.
struct Store {
    objects: HashMap<(String, String), Vec<u8>>,
    fail_delete: Option<String>,
}

fn copy(store: &mut Store, request: &CopyRequest) -> Result<(), String> {
    let (bucket, key) = request.copy_source.split_once('/').expect("bucket and key");
    match store.objects.get(&(bucket.to_string(), key.to_string())).cloned() {
        Some(data) => {
            store.objects.insert((request.bucket.clone(), request.key.clone()), data);
            Ok(())
        }
        None => Err("NoSuchKey".to_string()),
    }
}

fn delete(store: &mut Store, bucket: &str, key: &str) -> Result<(), String> {
    if let Some(refusal) = &store.fail_delete {
        return Err(refusal.clone());
    }
    store.objects.remove(&(bucket.to_string(), key.to_string()));
    Ok(())
}

fn rename(store: &mut Store, bucket: &str, old_key: &str, new_key: &str) -> Result<(), AppError> {
    let mut copied: Option<Result<(), String>> = None;
    let mut deleted: Option<Result<(), String>> = None;
    loop {
        match S3Service::rename_object(bucket, old_key, new_key, copied.clone(), deleted.clone()) {
            RenameStep::Copy(request) => {
                assert!(copied.is_none(), "the copy was asked for twice");
                copied = Some(copy(store, &request));
            }
            RenameStep::Delete { key } => {
                assert!(deleted.is_none(), "the delete was asked for twice");
                deleted = Some(delete(store, bucket, &key));
            }
            RenameStep::Done(result) => return result,
        }
    }
}

fn held(store: &Store, bucket: &str, key: &str) -> Option<Vec<u8>> {
    store.objects.get(&(bucket.to_string(), key.to_string())).cloned()
}

fn store_with(bucket: &str, key: &str, data: &[u8]) -> Store {
    let mut objects = HashMap::new();
    objects.insert((bucket.to_string(), key.to_string()), data.to_vec());
    Store { objects, fail_delete: None }
}

#[test]
fn a_bucket_in_the_default_region_has_no_location_constraint() {
    let request = S3Service::create_bucket(&connection("eu-west-1"), "logs", Some("us-east-1"));
    assert_eq!(
        request,
        CreateBucketRequest {
            bucket: "logs".to_string(),
            location_constraint: None,
            configuration: None,
        }
    );
    let ambient = S3Service::create_bucket(&connection("us-east-1"), "logs", None);
    assert_eq!(ambient.location_constraint, None);
    assert_eq!(ambient.configuration, None);
}

#[test]
fn a_bucket_in_any_other_region_names_it() {
    for region in ["eu-west-1", "us-east-2", "US-EAST-1", "us-east-1 ", "", "auto"] {
        let request = S3Service::create_bucket(&connection("us-east-1"), "logs", Some(region));
        assert_eq!(request.location_constraint, Some(region.to_string()));
        assert_eq!(request.bucket, "logs");
        let configuration = request.configuration.expect("a configuration");
        assert_eq!(
            configuration.location_constraint().map(|constraint| constraint.as_str()),
            Some(region)
        );
    }
}

#[test]
fn the_connection_s_region_is_used_where_none_is_asked_for() {
    let request = S3Service::create_bucket(&connection("ap-south-1"), "logs", None);
    assert_eq!(request.location_constraint, Some("ap-south-1".to_string()));
    let asked = S3Service::create_bucket(&connection("ap-south-1"), "logs", Some("eu-north-1"));
    assert_eq!(asked.location_constraint, Some("eu-north-1".to_string()));
}

#[test]
fn a_bucket_that_answers_exists() {
    assert_eq!(S3Service::head_bucket(Ok(())), Ok(true));
}

#[test]
fn a_bucket_that_is_not_found_does_not_exist() {
    for description in [
        "service error: unhandled error (404)",
        "NotFound",
        "service error: NotFound: no such bucket",
        "HTTP 404",
    ] {
        assert_eq!(S3Service::head_bucket(Err(description.to_string())), Ok(false));
    }
}

#[test]
fn any_other_failure_of_the_probe_is_a_failure() {
    for description in ["AccessDenied (403)", "dispatch failure", "not found", "40 4", ""] {
        assert_eq!(
            S3Service::head_bucket(Err(description.to_string())),
            Err(AppError::BackendError(description.to_string()))
        );
    }
}

#[test]
fn a_copy_names_its_source_as_bucket_and_key() {
    assert_eq!(
        S3Service::copy_object("src", "a/b.txt", "dst", "c.txt"),
        CopyRequest {
            copy_source: "src/a/b.txt".to_string(),
            bucket: "dst".to_string(),
            key: "c.txt".to_string(),
        }
    );
    assert_eq!(S3Service::copy_object("b", "", "b", "k").copy_source, "b/");
}

#[test]
fn a_rename_moves_the_object() {
    let mut backend = store_with("b", "old", b"content");
    backend.objects.insert(("b".to_string(), "other".to_string()), b"x".to_vec());
    assert_eq!(rename(&mut backend, "b", "old", "new"), Ok(()));
    assert_eq!(held(&backend, "b", "old"), None);
    assert_eq!(held(&backend, "b", "new"), Some(b"content".to_vec()));
    assert_eq!(held(&backend, "b", "other"), Some(b"x".to_vec()));
    assert_eq!(backend.objects.len(), 2);
}

#[test]
fn a_rename_over_an_object_replaces_it() {
    let mut backend = store_with("b", "old", b"content");
    backend.objects.insert(("b".to_string(), "new".to_string()), b"stale".to_vec());
    assert_eq!(rename(&mut backend, "b", "old", "new"), Ok(()));
    assert_eq!(held(&backend, "b", "new"), Some(b"content".to_vec()));
    assert_eq!(held(&backend, "b", "old"), None);
}

#[test]
fn a_failed_delete_leaves_both_objects() {
    let mut backend = store_with("b", "old", b"content");
    backend.fail_delete = Some("AccessDenied".to_string());
    assert_eq!(
        rename(&mut backend, "b", "old", "new"),
        Err(AppError::BackendError("AccessDenied".to_string()))
    );
    assert_eq!(held(&backend, "b", "old"), Some(b"content".to_vec()));
    assert_eq!(held(&backend, "b", "new"), Some(b"content".to_vec()));
}

#[test]
fn a_failed_copy_deletes_nothing() {
    let mut backend = store_with("b", "present", b"content");
    assert_eq!(
        rename(&mut backend, "b", "absent", "new"),
        Err(AppError::BackendError("NoSuchKey".to_string()))
    );
    assert_eq!(held(&backend, "b", "present"), Some(b"content".to_vec()));
    assert_eq!(held(&backend, "b", "new"), None);
}

#[test]
fn a_rename_copies_first_and_deletes_the_old_key() {
    assert_eq!(
        S3Service::rename_object("b", "old", "new", None, None),
        RenameStep::Copy(CopyRequest {
            copy_source: "b/old".to_string(),
            bucket: "b".to_string(),
            key: "new".to_string(),
        })
    );
    assert_eq!(
        S3Service::rename_object("b", "old", "new", Some(Ok(())), None),
        RenameStep::Delete { key: "old".to_string() }
    );
    assert_eq!(
        S3Service::rename_object("b", "old", "new", Some(Ok(())), Some(Ok(()))),
        RenameStep::Done(Ok(()))
    );
}

#[test]
fn the_buckets_of_an_account_are_shown_in_order() {
    let reply = Ok(vec![
        BucketEntry { name: Some("alpha".to_string()), creation_date: Some(1_600_000_000) },
        BucketEntry { name: None, creation_date: None },
        BucketEntry { name: Some("gamma".to_string()), creation_date: None },
    ]);
    assert_eq!(
        S3Service::list_buckets(reply),
        Ok(vec![
            BucketInfo { name: "alpha".to_string(), created_at: Some(1_600_000_000), region: None },
            BucketInfo { name: String::new(), created_at: None, region: None },
            BucketInfo { name: "gamma".to_string(), created_at: None, region: None },
        ])
    );
    assert_eq!(S3Service::list_buckets(Ok(vec![])), Ok(vec![]));
    assert_eq!(
        S3Service::list_buckets(Err("InvalidAccessKeyId".to_string())),
        Err(AppError::BackendError("InvalidAccessKeyId".to_string()))
    );
}

#[test]
fn location_versioning_and_deletion_are_passed_through() {
    assert_eq!(
        S3Service::get_bucket_location(Ok(Some("eu-west-1".to_string()))),
        Ok(Some("eu-west-1".to_string()))
    );
    assert_eq!(S3Service::get_bucket_location(Ok(None)), Ok(None));
    assert_eq!(
        S3Service::get_bucket_versioning(Ok(Some("Enabled".to_string()))),
        Ok(Some("Enabled".to_string()))
    );
    assert_eq!(
        S3Service::get_bucket_versioning(Err("x".to_string())),
        Err(AppError::BackendError("x".to_string()))
    );
    assert_eq!(S3Service::delete_bucket(Ok(())), Ok(()));
    assert_eq!(
        S3Service::delete_bucket(Err("BucketNotEmpty".to_string())),
        Err(AppError::BackendError("BucketNotEmpty".to_string()))
    );
}

#[test]
fn a_presigned_request_is_valid_for_the_time_asked_for() {
    let request = S3Service::get_presigned_url("b", "k.txt", 900).expect("a request");
    assert_eq!(request.bucket, "b");
    assert_eq!(request.key, "k.txt");
    assert_eq!(request.expires_in_secs, 900);
    assert_eq!(request.config.expires().as_secs(), 900);
}

#[test]
fn a_presigned_request_is_valid_for_at_most_a_week() {
    let week = S3Service::get_presigned_url("b", "k", 604800).expect("a request");
    assert_eq!(week.config.expires().as_secs(), 604800);
    match S3Service::get_presigned_url("b", "k", 604801) {
        Err(error) => assert_eq!(
            error,
            AppError::BackendError("`expires_in` must be no longer than one week".to_string())
        ),
        Ok(_) => panic!("more than a week was accepted"),
    }
    assert!(S3Service::get_presigned_url("b", "k", u64::MAX).is_err());
    assert!(S3Service::get_presigned_url("b", "k", 0).is_ok());
}

#[test]
fn the_default_validity_is_one_hour() {
    let request = get_presigned_url("b", "k", None).expect("a request");
    assert_eq!(request.expires_in_secs, 3600);
    assert_eq!(request.config.expires().as_secs(), 3600);
    let asked = get_presigned_url("b", "k", Some(60)).expect("a request");
    assert_eq!(asked.expires_in_secs, 60);
    assert!(get_presigned_url("b", "k", Some(700000)).is_err());
}
