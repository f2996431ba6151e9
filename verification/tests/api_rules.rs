use vsm_core::api::{
    debug_response, http_method_from, invite_response, license_response, prepare_debug_request,
    raw_response, ApiResponse, DebugApiRequest, HttpMethod,
};
use vsm_core::errors::{ApiError, RustError};
use vsm_core::text::u16_to_string;

#[test]
fn raw_response_passes_success_body_through() {
    assert_eq!(raw_response(200, "payload".to_string()).unwrap(), "payload");
    match raw_response(404, "ignored".to_string()) {
        Err(ApiError::TransportOrServiceError { status }) => assert_eq!(status, 404),
        other => panic!("expected a transport failure, got {:?}", other),
    }
}

#[test]
fn invite_response_is_true_on_success_only() {
    assert!(invite_response(200).unwrap());
    match invite_response(403) {
        Err(ApiError::TransportOrServiceError { status }) => assert_eq!(status, 403),
        other => panic!("expected a transport failure, got {:?}", other),
    }
}

#[test]
fn http_methods_accept_exact_spellings_only() {
    assert_eq!(http_method_from("GET"), Some(HttpMethod::Get));
    assert_eq!(http_method_from("POST"), Some(HttpMethod::Post));
    assert_eq!(http_method_from("PUT"), Some(HttpMethod::Put));
    assert_eq!(http_method_from("DELETE"), Some(HttpMethod::Delete));
    assert_eq!(http_method_from("PATCH"), Some(HttpMethod::Patch));
    assert_eq!(http_method_from("get"), None);
    assert_eq!(http_method_from("HEAD"), None);
    assert_eq!(http_method_from(""), None);
}

#[test]
fn debug_request_method_is_read_case_insensitively() {
    let prepared = prepare_debug_request(DebugApiRequest {
        method: "get".to_string(),
        endpoint: "/1/auth/user".to_string(),
        data: None,
    })
    .unwrap();
    assert_eq!(prepared.method, HttpMethod::Get);
    assert_eq!(prepared.endpoint, "/1/auth/user");
    assert!(prepared.data.is_none());
    let prepared = prepare_debug_request(DebugApiRequest {
        method: "Delete".to_string(),
        endpoint: "/1/invite".to_string(),
        data: None,
    })
    .unwrap();
    assert_eq!(prepared.method, HttpMethod::Delete);
}

#[test]
fn debug_request_rejects_unknown_method() {
    match prepare_debug_request(DebugApiRequest {
        method: "FETCH".to_string(),
        endpoint: "/1/users".to_string(),
        data: None,
    }) {
        Err(RustError::Unrecoverable { message }) => {
            assert_eq!(message, "Unsupported HTTP method");
        }
        other => panic!("expected the method to be refused, got {:?}", other),
    }
}

#[test]
fn debug_request_validates_payload() {
    match prepare_debug_request(DebugApiRequest {
        method: "POST".to_string(),
        endpoint: "/1/invite".to_string(),
        data: Some("{not json".to_string()),
    }) {
        Err(RustError::Unrecoverable { message }) => {
            assert_eq!(message, "Invalid JSON data");
        }
        other => panic!("expected the payload to be refused, got {:?}", other),
    }
    let prepared = prepare_debug_request(DebugApiRequest {
        method: "post".to_string(),
        endpoint: "/1/invite".to_string(),
        data: Some("{\"code\":\"123456\"}".to_string()),
    })
    .unwrap();
    assert_eq!(prepared.data.as_deref(), Some("{\"code\":\"123456\"}"));
}

#[test]
fn debug_response_wraps_success_and_failure_in_band() {
    let ok = debug_response(200, "{\"users\":[]}".to_string());
    assert_eq!(ok.status, "ok");
    assert_eq!(ok.data, "{\"users\":[]}");
    let err = debug_response(503, "ignored".to_string());
    assert_eq!(err.status, "error");
    assert_eq!(err.data, "Request failed with status: 503");
}

#[test]
fn license_response_wraps_content_and_failure_in_band() {
    let ok = license_response(Ok("[{\"name\":\"serde\"}]".to_string()));
    assert_eq!(ok.status, "ok");
    assert_eq!(ok.data, "[{\"name\":\"serde\"}]");
    let err = license_response(Err("No such file".to_string()));
    assert_eq!(err.status, "error");
    assert_eq!(err.data, "Failed to read licenses file: No such file");
}

#[test]
fn api_response_constructors_tag_status() {
    let ok = ApiResponse::ok("data".to_string());
    assert_eq!(ok.status, "ok");
    let err = ApiResponse::error("why".to_string());
    assert_eq!(err.status, "error");
    assert_eq!(err.data, "why");
}

#[test]
fn decimal_rendering_is_exact() {
    assert_eq!(u16_to_string(0), "0");
    assert_eq!(u16_to_string(7), "7");
    assert_eq!(u16_to_string(200), "200");
    assert_eq!(u16_to_string(404), "404");
    assert_eq!(u16_to_string(65535), "65535");
}

#[test]
fn error_messages_match_the_command_layer() {
    assert_eq!(ApiError::AuthRejected.message(), "errors.loginFail");
    assert_eq!(ApiError::SecondFactorRejected.message(), "errors.2faFail");
    assert_eq!(ApiError::SessionInvalid.message(), "errors.unauthorized");
    assert_eq!(
        ApiError::TransportOrServiceError { status: 500 }.message(),
        "500"
    );
    assert_eq!(ApiError::FetchFailed.message(), "Failed...");
    assert_eq!(
        ApiError::PersistenceError { message: "disk full".to_string() }.message(),
        "disk full"
    );
    match ApiError::AuthRejected.to_rust_error() {
        RustError::Unrecoverable { message } => assert_eq!(message, "errors.loginFail"),
    }
    match RustError::unrecoverable("boom".to_string()) {
        RustError::Unrecoverable { message } => assert_eq!(message, "boom"),
    }
}
