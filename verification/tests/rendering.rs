use backend_error::{EncodeError, ErrorKind, HcaptchaError, Response};

const FALLBACK: &str = "{\"code\":500000,\"err\":\"internal server error\"}";

fn rejected(reason: &str) -> ErrorKind {
    ErrorKind::Hcaptcha(HcaptchaError::new(reason.to_string()))
}

fn synthetic_failure(detail: &str) -> Result<String, EncodeError> {
    Err(EncodeError { detail: detail.to_string() })
}

#[test]
fn storage_failure_renders_500_with_the_generic_body() {
    let causes = vec![
        sqlx::Error::RowNotFound,
        sqlx::Error::PoolTimedOut,
        sqlx::Error::WorkerCrashed,
        sqlx::Error::Protocol("DROP TABLE users; -- \"quoted\"".to_string()),
        sqlx::Error::ColumnIndexOutOfBounds { index: 9, len: 2 },
    ];
    for cause in causes {
        let response: Response = ErrorKind::Sqlx(cause).error_response();
        assert_eq!(response.status, 500u16);
        assert_eq!(response.content_type, "application/json");
        assert_eq!(response.body, "{\"code\":510000,\"err\":\"database error\"}");
        assert!(response.diagnostic.is_none());
    }
}

#[test]
fn rejected_challenge_renders_403_with_its_reason() {
    let response = rejected("X").error_response();
    assert_eq!(response.status, 403u16);
    assert_eq!(response.content_type, "application/json");
    assert_eq!(response.body, "{\"code\":410000,\"err\":\"X\"}");
    assert!(response.diagnostic.is_none());
}

#[test]
fn captcha_timeout_end_to_end() {
    let cause = HcaptchaError::new("captcha verification failed: timeout".to_string());
    let response = ErrorKind::from(cause).error_response();
    assert_eq!(response.status, 403u16);
    assert_eq!(response.content_type, "application/json");
    assert_eq!(
        response.body,
        "{\"code\":410000,\"err\":\"captcha verification failed: timeout\"}"
    );
    assert!(response.diagnostic.is_none());
}

#[test]
fn reason_that_needs_escaping_stays_valid_json() {
    let reason = "bad \"token\"\nsee \\docs";
    let response = rejected(reason).error_response();
    assert_eq!(response.status, 403u16);
    assert_eq!(
        response.body,
        "{\"code\":410000,\"err\":\"bad \\\"token\\\"\\nsee \\\\docs\"}"
    );
    let value: serde_json::Value = serde_json::from_str(&response.body).unwrap();
    assert_eq!(value.get("code").unwrap().as_u64(), Some(410000));
    assert_eq!(value.get("err").unwrap().as_str(), Some(reason));
    assert!(response.diagnostic.is_none());
}

#[test]
fn empty_reason_renders_an_empty_message() {
    let response = rejected("").error_response();
    assert_eq!(response.status, 403u16);
    assert_eq!(response.body, "{\"code\":410000,\"err\":\"\"}");
}

#[test]
fn every_body_parses_back_into_code_and_err() {
    let errors = vec![
        ErrorKind::Sqlx(sqlx::Error::PoolClosed),
        rejected("plain"),
        rejected("\u{0}\u{1f}\t\"\\/"),
        rejected("h\u{e9}las \u{1f916}"),
    ];
    for e in errors {
        let body = e.error_response().body;
        let value: serde_json::Value = serde_json::from_str(&body).unwrap();
        let object = value.as_object().unwrap();
        assert_eq!(object.len(), 2);
        assert_eq!(object.get("code").unwrap().as_u64(), Some(e.code()));
        assert_eq!(object.get("err").unwrap().as_str(), Some(e.user_msg().as_str()));
    }
}

#[test]
fn rendering_twice_gives_the_same_response() {
    for e in [ErrorKind::Sqlx(sqlx::Error::RowNotFound), rejected("again")] {
        let a = e.error_response();
        let b = e.error_response();
        assert_eq!(a.status, b.status);
        assert_eq!(a.content_type, b.content_type);
        assert_eq!(a.body, b.body);
        assert_eq!(a.diagnostic, b.diagnostic);
    }
}

#[test]
fn encoded_body_is_passed_through() {
    let e = ErrorKind::Sqlx(sqlx::Error::RowNotFound);
    let response = e.respond_with(Ok("{\"code\":1,\"err\":\"given\"}".to_string()));
    assert_eq!(response.status, 500u16);
    assert_eq!(response.content_type, "application/json");
    assert_eq!(response.body, "{\"code\":1,\"err\":\"given\"}");
    assert!(response.diagnostic.is_none());
}

#[test]
fn forced_encoding_failure_keeps_status_of_storage_failure() {
    let e = ErrorKind::Sqlx(sqlx::Error::RowNotFound);
    let response = e.respond_with(synthetic_failure("key must be a string"));
    assert_eq!(response.status, 500u16);
    assert_eq!(response.content_type, "application/json");
    assert_eq!(response.body, FALLBACK);
}

#[test]
fn forced_encoding_failure_keeps_status_of_rejected_challenge() {
    let response = rejected("nope").respond_with(synthetic_failure("key must be a string"));
    assert_eq!(response.status, 403u16);
    assert_eq!(response.content_type, "application/json");
    assert_eq!(response.body, FALLBACK);
}

#[test]
fn forced_encoding_failure_leaves_a_log_entry() {
    let response = rejected("nope").respond_with(synthetic_failure("key must be a string"));
    assert_eq!(
        response.diagnostic.as_deref(),
        Some("error occurred when generating error response: key must be a string")
    );
    let response = rejected("nope").respond_with(synthetic_failure(""));
    assert_eq!(
        response.diagnostic.as_deref(),
        Some("error occurred when generating error response: ")
    );
}

#[test]
fn fallback_body_is_a_record_of_the_wire_shape() {
    let response = rejected("nope").respond_with(synthetic_failure("boom"));
    let value: serde_json::Value = serde_json::from_str(&response.body).unwrap();
    let object = value.as_object().unwrap();
    assert_eq!(object.len(), 2);
    assert_eq!(object.get("code").unwrap().as_u64(), Some(500000));
    assert_eq!(object.get("err").unwrap().as_str(), Some("internal server error"));
}

#[test]
fn encode_error_keeps_its_detail() {
    let e = EncodeError { detail: "why".to_string() };
    assert_eq!(e.clone().detail, "why");
    assert_eq!(format!("{:?}", e), "EncodeError { detail: \"why\" }");
}
