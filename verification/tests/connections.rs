use baul::commands::{
    create_connection, delete_connection, export_connections, find_connection, get_connection,
    import_connection_as, import_connections, list_connections, new_connection,
    restore_connection, stage_update, test_connection, trial_outcome, update_connection,
    update_connection_at,
    ConnectionExport, ConnectionUpdate, ExportedConnection,
};
use baul::error::AppError;
use baul::models::{BucketInfo, S3Connection, S3ConnectionWithSecret, S3Provider};
use baul::state::{AppState, ConnectionMap};

fn conn(id: &str, name: &str) -> S3ConnectionWithSecret {
    S3ConnectionWithSecret {
        id: id.to_string(),
        name: name.to_string(),
        provider: S3Provider::Minio,
        endpoint: "http://localhost:9000".to_string(),
        region: "us-east-1".to_string(),
        access_key: "AK".to_string(),
        secret_key: "SK".to_string(),
        use_ssl: false,
        use_path_style: true,
        created_at: 100,
        updated_at: 100,
    }
}

fn exported(name: &str) -> ExportedConnection {
    ExportedConnection {
        name: name.to_string(),
        provider: S3Provider::Wasabi,
        endpoint: "https://s3.wasabisys.com".to_string(),
        region: "eu-central-1".to_string(),
        access_key: "WAK".to_string(),
        use_ssl: true,
        use_path_style: false,
    }
}

fn state_with(connections: Vec<S3ConnectionWithSecret>) -> AppState {
    let mut state = AppState::default();
    for c in connections {
        create_connection(&mut state, c, Ok(())).expect("registered");
    }
    state
}

fn no_change() -> ConnectionUpdate {
    ConnectionUpdate {
        name: None,
        provider: None,
        endpoint: None,
        region: None,
        access_key: None,
        secret_key: None,
        use_ssl: None,
        use_path_style: None,
    }
}

fn names(state: &AppState) -> Vec<String> {
    list_connections(state).into_iter().map(|c| c.name).collect()
}

#[test]
fn a_map_keeps_one_value_per_key_in_order_of_arrival() {
    let mut map: ConnectionMap<S3Connection> = ConnectionMap::new();
    assert_eq!(map.len(), 0);
    assert!(map.insert("a".to_string(), conn("a", "first").public()).is_none());
    assert!(map.insert("b".to_string(), conn("b", "second").public()).is_none());
    let previous = map.insert("a".to_string(), conn("a", "third").public());
    assert_eq!(previous.map(|c| c.name), Some("first".to_string()));
    assert_eq!(map.len(), 2);
    assert_eq!(map.entry_at(0).0, "a");
    assert_eq!(map.entry_at(0).1.name, "third");
    assert_eq!(map.entry_at(1).0, "b");
    assert!(map.contains_key("b"));
    assert!(!map.contains_key("c"));
    assert_eq!(map.get("b").map(|c| c.name.clone()), Some("second".to_string()));
    assert!(map.get("").is_none());
}

#[test]
fn removing_a_key_keeps_the_order_of_the_others() {
    let mut map: ConnectionMap<S3Connection> = ConnectionMap::new();
    for id in ["a", "b", "c"] {
        map.insert(id.to_string(), conn(id, id).public());
    }
    assert_eq!(map.remove("b").map(|c| c.id), Some("b".to_string()));
    assert!(map.remove("b").is_none());
    assert_eq!(map.len(), 2);
    assert_eq!(map.entry_at(0).0, "a");
    assert_eq!(map.entry_at(1).0, "c");
}

#[test]
fn a_new_connection_has_a_fresh_id_and_one_timestamp() {
    let make = || {
        new_connection(
            "prod".to_string(),
            S3Provider::Aws,
            "https://s3.amazonaws.com".to_string(),
            "eu-west-1".to_string(),
            "AK".to_string(),
            "SK".to_string(),
            true,
            false,
        )
    };
    let first = make();
    let second = make();
    assert_eq!(first.name, "prod");
    assert_eq!(first.provider, S3Provider::Aws);
    assert_eq!(first.endpoint, "https://s3.amazonaws.com");
    assert_eq!(first.region, "eu-west-1");
    assert_eq!(first.access_key, "AK");
    assert_eq!(first.secret_key, "SK");
    assert!(first.use_ssl);
    assert!(!first.use_path_style);
    assert_eq!(first.created_at, first.updated_at);
    assert!(first.created_at > 1_600_000_000);
    assert_eq!(first.id.len(), 36);
    assert_ne!(first.id, second.id);
}

#[test]
fn a_connection_is_registered_once_its_secret_is_stored() {
    let mut state = AppState::default();
    let created = create_connection(&mut state, conn("c1", "one"), Ok(()));
    assert_eq!(created, Ok(conn("c1", "one")));
    assert_eq!(find_connection(&state, "c1"), Ok(conn("c1", "one")));
    assert_eq!(state.connections.len(), 1);
}

#[test]
fn a_connection_whose_secret_is_not_stored_is_not_registered() {
    let mut state = state_with(vec![conn("c0", "zero")]);
    let refused = AppError::CredentialStoreError("locked".to_string());
    let created = create_connection(&mut state, conn("c1", "one"), Err(refused.clone()));
    assert_eq!(created, Err(refused));
    assert_eq!(names(&state), vec!["zero".to_string()]);
    assert_eq!(
        find_connection(&state, "c1"),
        Err(AppError::ConnectionNotFound("c1".to_string()))
    );
}

#[test]
fn connections_are_shown_without_their_secret() {
    let state = state_with(vec![conn("c1", "one"), conn("c2", "two")]);
    let shown = list_connections(&state);
    assert_eq!(shown, vec![conn("c1", "one").public(), conn("c2", "two").public()]);
    assert_eq!(get_connection(&state, "c2"), Ok(conn("c2", "two").public()));
    assert_eq!(
        get_connection(&state, "c9"),
        Err(AppError::ConnectionNotFound("c9".to_string()))
    );
    assert!(list_connections(&AppState::default()).is_empty());
}

#[test]
fn dropping_and_attaching_the_secret_are_inverse() {
    let full = conn("c1", "one");
    let record: S3Connection = S3Connection::from(conn("c1", "one"));
    assert_eq!(record, full.public());
    assert_eq!(record.with_secret("SK".to_string()), full);
}

#[test]
fn an_update_changes_the_fields_it_names() {
    let mut state = state_with(vec![conn("c1", "one"), conn("c2", "two")]);
    let update = ConnectionUpdate {
        name: Some("renamed".to_string()),
        provider: Some(S3Provider::Backblaze),
        endpoint: None,
        region: Some("eu-central-003".to_string()),
        access_key: None,
        secret_key: None,
        use_ssl: Some(true),
        use_path_style: None,
    };
    assert_eq!(stage_update(&mut state, "c1", &update), Ok(None));
    let updated = update_connection_at(&mut state, "c1", &update, 777).expect("updated");
    let mut expected = conn("c1", "renamed");
    expected.provider = S3Provider::Backblaze;
    expected.region = "eu-central-003".to_string();
    expected.use_ssl = true;
    expected.updated_at = 777;
    assert_eq!(updated, expected);
    assert_eq!(find_connection(&state, "c1"), Ok(expected));
    assert_eq!(find_connection(&state, "c2"), Ok(conn("c2", "two")));
    assert_eq!(names(&state), vec!["renamed".to_string(), "two".to_string()]);
}

#[test]
fn an_update_with_a_secret_hands_the_secret_out_first() {
    let mut state = state_with(vec![conn("c1", "one")]);
    let mut update = no_change();
    update.secret_key = Some("NEW".to_string());
    update.use_path_style = Some(false);
    update.endpoint = Some("http://other:9000".to_string());
    update.access_key = Some("AK2".to_string());
    assert_eq!(stage_update(&mut state, "c1", &update), Ok(Some("NEW".to_string())));
    let staged = find_connection(&state, "c1").expect("registered");
    assert_eq!(staged.secret_key, "NEW");
    assert_eq!(staged.endpoint, "http://other:9000");
    assert_eq!(staged.access_key, "AK2");
    assert!(staged.use_path_style);
    assert_eq!(staged.updated_at, 100);
    let done = update_connection_at(&mut state, "c1", &update, 200).expect("updated");
    assert!(!done.use_path_style);
    assert_eq!(done.updated_at, 200);
    assert_eq!(done.created_at, 100);
    assert_eq!(done.secret_key, "NEW");
}

#[test]
fn an_update_that_names_nothing_only_records_the_time() {
    let mut state = state_with(vec![conn("c1", "one")]);
    let updated = update_connection_at(&mut state, "c1", &no_change(), 5).expect("updated");
    let mut expected = conn("c1", "one");
    expected.updated_at = 5;
    assert_eq!(updated, expected);
}

#[test]
fn an_update_made_now_records_the_clock() {
    let mut state = state_with(vec![conn("c1", "one")]);
    let updated = update_connection(&mut state, "c1", &no_change()).expect("updated");
    assert!(updated.updated_at > 1_600_000_000);
    assert_eq!(updated.created_at, 100);
    assert_eq!(find_connection(&state, "c1"), Ok(updated));
}

#[test]
fn an_update_of_an_unknown_connection_changes_nothing() {
    let mut state = state_with(vec![conn("c1", "one")]);
    let mut update = no_change();
    update.name = Some("x".to_string());
    let missing = Err(AppError::ConnectionNotFound("nope".to_string()));
    assert_eq!(stage_update(&mut state, "nope", &update), Err(AppError::ConnectionNotFound("nope".to_string())));
    assert_eq!(update_connection_at(&mut state, "nope", &update, 1), missing);
    assert_eq!(update_connection(&mut state, "nope", &update), Err(AppError::ConnectionNotFound("nope".to_string())));
    assert_eq!(names(&state), vec!["one".to_string()]);
}

#[test]
fn a_connection_is_deleted_and_a_missing_one_is_no_failure() {
    let mut state = state_with(vec![conn("c1", "one"), conn("c2", "two"), conn("c3", "three")]);
    assert!(delete_connection(&mut state, "c2"));
    assert!(!delete_connection(&mut state, "c2"));
    assert_eq!(names(&state), vec!["one".to_string(), "three".to_string()]);
}

#[test]
fn a_trial_runs_under_an_unregistered_connection() {
    let probe = test_connection(
        "http://localhost:9000".to_string(),
        "us-east-1".to_string(),
        "AK".to_string(),
        "SK".to_string(),
        false,
        true,
        S3Provider::Minio,
    );
    let mut expected = conn("test", "test");
    expected.created_at = 0;
    expected.updated_at = 0;
    assert_eq!(probe, expected);
}

#[test]
fn an_export_holds_the_settings_under_version_one() {
    let state = state_with(vec![conn("c1", "one"), conn("c2", "two")]);
    let export = export_connections(&state);
    assert_eq!(export.version, 1);
    assert_eq!(export.connections.len(), 2);
    assert_eq!(
        export.connections[0],
        ExportedConnection {
            name: "one".to_string(),
            provider: S3Provider::Minio,
            endpoint: "http://localhost:9000".to_string(),
            region: "us-east-1".to_string(),
            access_key: "AK".to_string(),
            use_ssl: false,
            use_path_style: true,
        }
    );
    assert_eq!(export.connections[1].name, "two");
    assert_eq!(export_connections(&AppState::default()).connections.len(), 0);
}

#[test]
fn an_import_of_another_version_registers_nothing() {
    for version in [0u32, 2, 10, u32::MAX] {
        let mut state = state_with(vec![conn("c1", "one")]);
        let import = ConnectionExport { version, connections: vec![exported("a"), exported("b")] };
        assert_eq!(
            import_connections(&mut state, Ok(import)),
            Err(AppError::BackendError(format!("Unsupported export version: {}", version)))
        );
        assert_eq!(list_connections(&state), vec![conn("c1", "one").public()]);
    }
}

#[test]
fn an_import_registers_every_connection_with_an_empty_secret() {
    let mut state = state_with(vec![conn("c1", "one")]);
    let import = ConnectionExport { version: 1, connections: vec![exported("a"), exported("b")] };
    let imported = import_connections(&mut state, Ok(import)).expect("imported");
    assert_eq!(imported.len(), 2);
    assert_eq!(imported[0].name, "a");
    assert_eq!(imported[1].name, "b");
    for connection in &imported {
        assert_eq!(connection.secret_key, "");
        assert_eq!(connection.provider, S3Provider::Wasabi);
        assert_eq!(connection.endpoint, "https://s3.wasabisys.com");
        assert_eq!(connection.region, "eu-central-1");
        assert_eq!(connection.access_key, "WAK");
        assert!(connection.use_ssl);
        assert!(!connection.use_path_style);
        assert_eq!(connection.created_at, connection.updated_at);
        assert_eq!(connection.id.len(), 36);
        assert_eq!(find_connection(&state, &connection.id).as_ref(), Ok(connection));
    }
    assert_ne!(imported[0].id, imported[1].id);
    assert_eq!(names(&state), vec!["one".to_string(), "a".to_string(), "b".to_string()]);
}

#[test]
fn an_empty_import_registers_nothing() {
    let mut state = state_with(vec![conn("c1", "one")]);
    let import = ConnectionExport { version: 1, connections: vec![] };
    assert_eq!(import_connections(&mut state, Ok(import)), Ok(vec![]));
    assert_eq!(names(&state), vec!["one".to_string()]);
}

#[test]
fn an_export_imported_again_gives_the_same_settings() {
    let state = state_with(vec![conn("c1", "one"), conn("c2", "two")]);
    let mut fresh = AppState::default();
    let imported =
        import_connections(&mut fresh, Ok(export_connections(&state))).expect("imported");
    assert_eq!(imported.len(), 2);
    assert_eq!(export_connections(&fresh), export_connections(&state));
}

#[test]
fn one_imported_connection_is_registered_under_the_given_id() {
    let mut state = AppState::default();
    let connection = import_connection_as(&mut state, exported("a"), "id-1".to_string(), 42);
    assert_eq!(connection.id, "id-1");
    assert_eq!(connection.created_at, 42);
    assert_eq!(connection.updated_at, 42);
    assert_eq!(connection.secret_key, "");
    assert_eq!(find_connection(&state, "id-1"), Ok(connection));
}

#[test]
fn a_saved_connection_comes_back_with_its_secret() {
    let mut state = AppState::default();
    restore_connection(&mut state, "c1".to_string(), conn("c1", "one").public(), Ok("SK".to_string()));
    assert_eq!(find_connection(&state, "c1"), Ok(conn("c1", "one")));
}

#[test]
fn a_saved_connection_without_readable_secret_comes_back_with_an_empty_one() {
    let mut state = AppState::default();
    restore_connection(
        &mut state,
        "c1".to_string(),
        conn("c1", "one").public(),
        Err(AppError::CredentialStoreError("no entry".to_string())),
    );
    let mut expected = conn("c1", "one");
    expected.secret_key = String::new();
    assert_eq!(find_connection(&state, "c1"), Ok(expected));
}

#[test]
fn an_import_that_is_no_json_registers_nothing() {
    let mut state = state_with(vec![conn("c1", "one")]);
    assert_eq!(
        import_connections(&mut state, Err("expected value at line 1 column 1".to_string())),
        Err(AppError::SerializationError("expected value at line 1 column 1".to_string()))
    );
    assert_eq!(names(&state), vec!["one".to_string()]);
}

#[test]
fn a_trial_succeeds_when_the_listing_does() {
    assert_eq!(trial_outcome(Ok(vec![])), Ok(true));
    let one = BucketInfo { name: "b".to_string(), created_at: None, region: None };
    assert_eq!(trial_outcome(Ok(vec![one])), Ok(true));
}

#[test]
fn a_trial_fails_with_the_listing_s_failure() {
    let refused = AppError::BackendError("InvalidAccessKeyId".to_string());
    assert_eq!(trial_outcome(Err(refused.clone())), Err(refused));
}
