use media_server::error::Error;
use media_server::sqlite::{safe_file_name, SqliteClient};
use media_server::StorageClient;

#[test]
fn create_then_fetch_returns_same_bytes() {
    let mut client = SqliteClient::new_in_memory().unwrap();
    let bytes = vec![1u8, 2, 3, 4, 255, 0];
    client.create_object("u64-1", bytes.clone()).unwrap();
    let fetched = client.fetch_object("u64-1").unwrap();
    assert_eq!(fetched, bytes);
}

#[test]
fn create_empty_object_roundtrips() {
    let mut client = SqliteClient::new_in_memory().unwrap();
    client.create_object("u64-2", Vec::new()).unwrap();
    let fetched = client.fetch_object("u64-2").unwrap();
    assert_eq!(fetched, Vec::<u8>::new());
}

#[test]
fn duplicate_create_fails_with_storage_and_keeps_original() {
    let mut client = SqliteClient::new_in_memory().unwrap();
    let original = vec![10u8, 20, 30];
    client.create_object("u64-3", original.clone()).unwrap();
    let err = client
        .create_object("u64-3", vec![99u8, 98, 97])
        .unwrap_err();
    match &err {
        Error::Storage { .. } => {}
        other => panic!("expected a Storage error, got {:?}", other),
    }
    assert_eq!(err.status(), 500);
    let fetched = client.fetch_object("u64-3").unwrap();
    assert_eq!(fetched, original);
}

#[test]
fn fetch_of_never_created_name_fails_not_found() {
    let client = SqliteClient::new_in_memory().unwrap();
    let err = client.fetch_object("u64-404").unwrap_err();
    match &err {
        Error::Storage { text } => assert_eq!(text, "not found"),
        other => panic!("expected a Storage error, got {:?}", other),
    }
    assert_eq!(err.status(), 500);
}

#[test]
fn creates_under_distinct_names_are_all_fetchable() {
    let mut client = SqliteClient::new_in_memory().unwrap();
    let names = ["u64-10", "u64-11", "u64-12", "u64-13", "u64-14"];
    for (i, name) in names.iter().enumerate() {
        let payload = vec![i as u8; i + 1];
        client.create_object(name, payload).unwrap();
    }
    for (i, name) in names.iter().enumerate() {
        let fetched = client.fetch_object(name).unwrap();
        assert_eq!(fetched, vec![i as u8; i + 1]);
    }
}

#[test]
fn safe_file_name_joins_relative_names() {
    assert_eq!(
        safe_file_name("root".to_string(), "a.png".to_string()),
        Some("root/a.png".to_string())
    );
    assert_eq!(
        safe_file_name("root/".to_string(), "a.png".to_string()),
        Some("root/a.png".to_string())
    );
    assert_eq!(
        safe_file_name("".to_string(), "a.png".to_string()),
        Some("a.png".to_string())
    );
    assert_eq!(
        safe_file_name("root".to_string(), "".to_string()),
        Some("root/".to_string())
    );
}

#[test]
fn safe_file_name_refuses_absolute_names() {
    assert_eq!(
        safe_file_name("root".to_string(), "/etc-passwd".to_string()),
        None
    );
    assert_eq!(safe_file_name("".to_string(), "/".to_string()), None);
}
