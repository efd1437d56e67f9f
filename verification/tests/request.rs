use ovh::error::OvhError;
use ovh::request::{acknowledged, Header, HttpResponse};

fn response(status: u16, body: &str) -> HttpResponse {
    HttpResponse::new(status, body)
}

#[test]
fn status_200_to_299_is_success() {
    assert!(response(200, "").is_success());
    assert!(response(201, "").is_success());
    assert!(response(204, "").is_success());
    assert!(response(299, "").is_success());
    assert!(!response(199, "").is_success());
    assert!(!response(300, "").is_success());
    assert!(!response(304, "").is_success());
    assert!(!response(404, "").is_success());
    assert!(!response(500, "").is_success());
    assert!(!response(0, "").is_success());
    assert!(!response(u16::MAX, "").is_success());
}

#[test]
fn error_for_status_keeps_a_success() {
    assert_eq!(response(200, "[1,2]").error_for_status(), Ok(response(200, "[1,2]")));
    assert_eq!(response(299, "").error_for_status(), Ok(response(299, "")));
}

#[test]
fn error_for_status_reports_status_and_body() {
    assert_eq!(
        response(404, "{\"message\":\"no such zone\"}").error_for_status(),
        Err(OvhError::ApiError(404, String::from("{\"message\":\"no such zone\"}")))
    );
    assert_eq!(
        response(301, "moved").error_for_status(),
        Err(OvhError::ApiError(301, String::from("moved")))
    );
    assert_eq!(response(199, "").error_for_status(), Err(OvhError::ApiError(199, String::new())));
    assert_eq!(response(300, "").error_for_status(), Err(OvhError::ApiError(300, String::new())));
}

#[test]
fn acknowledged_reads_success_and_failure() {
    assert_eq!(acknowledged(Ok(response(200, "null"))), Ok(()));
    assert_eq!(acknowledged(Ok(response(204, ""))), Ok(()));
    assert_eq!(
        acknowledged(Ok(response(403, "denied"))),
        Err(OvhError::ApiError(403, String::from("denied")))
    );
    assert_eq!(acknowledged(Err(OvhError::NetworkError)), Err(OvhError::NetworkError));
    assert_eq!(acknowledged(Err(OvhError::OutOfRange)), Err(OvhError::OutOfRange));
}

#[test]
fn headers_are_plain_or_sensitive() {
    let h = Header::plain("X-Ovh-Application", "key");
    assert_eq!(h.name, "X-Ovh-Application");
    assert_eq!(h.value, "key");
    assert!(!h.sensitive);
    let h = Header::sensitive("X-Ovh-Consumer", "secret");
    assert_eq!(h.name, "X-Ovh-Consumer");
    assert_eq!(h.value, "secret");
    assert!(h.sensitive);
}
