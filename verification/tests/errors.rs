use media_server::error::{Error, SERVER_FAILURE_STATUS};
use media_server::gcs::{classify_response, GcsClient, HttpOutcome};

#[test]
fn remote_404_surfaces_as_application_with_status_404() {
    let outcome = HttpOutcome::Response {
        status: 404,
        body: b"no such object".to_vec(),
    };
    let err = classify_response(outcome).unwrap_err();
    assert_eq!(err.status(), 404);
    match &err {
        Error::Application { status_code, text } => {
            assert_eq!(*status_code, 404);
            assert_eq!(text, "no such object");
        }
        other => panic!("expected an Application error, got {:?}", other),
    }
    let body = err.to_body();
    assert_eq!(body.status_code, 404);
    assert_eq!(body.message, "no such object");
}

#[test]
fn success_response_passes_body_through() {
    let outcome = HttpOutcome::Response {
        status: 200,
        body: vec![9u8, 8, 7],
    };
    assert_eq!(classify_response(outcome).unwrap(), vec![9u8, 8, 7]);
    let created = HttpOutcome::Response {
        status: 201,
        body: Vec::new(),
    };
    assert!(classify_response(created).is_ok());
}

#[test]
fn transport_failure_surfaces_as_generic_network_error() {
    let err = classify_response(HttpOutcome::TransportFailure).unwrap_err();
    assert_eq!(err, Error::Network);
    assert_eq!(err.status(), SERVER_FAILURE_STATUS);
    let body = err.to_body();
    assert_eq!(body.status_code, 500);
    assert_eq!(body.message, "network error");
}

#[test]
fn storage_and_unclassified_errors_map_to_server_failure() {
    let s = Error::Storage {
        text: "disk failed".to_string(),
    };
    assert_eq!(s.status(), SERVER_FAILURE_STATUS);
    assert_eq!(s.to_body().message, "disk failed");

    let u = Error::Unclassified {
        text: "malformed url".to_string(),
    };
    assert_eq!(u.status(), SERVER_FAILURE_STATUS);
    assert_eq!(u.to_body().message, "malformed url");
}

#[test]
fn application_error_keeps_dependency_text_verbatim() {
    let outcome = HttpOutcome::Response {
        status: 403,
        body: b"insufficient scope".to_vec(),
    };
    let err = classify_response(outcome).unwrap_err();
    assert_eq!(err.status(), 403);
    assert_eq!(err.to_body().message, "insufficient scope");
}

#[test]
fn remote_backend_constructs_over_token_and_bucket() {
    let _client = GcsClient::new("token-for-tests".to_string(), "bucket".to_string());
}
