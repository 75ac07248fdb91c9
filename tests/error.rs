use rust_dev::error::{custom_reply, message_body, ServiceError, STATUS_INTERNAL_SERVER_ERROR, STATUS_OK};

fn json_failure() -> serde_json::Error {
    serde_json::from_str::<u32>("not a number").unwrap_err()
}

#[test]
fn custom_error_replies_with_json_message() {
    let reply = ServiceError::Custom(String::from("bad \"input\"")).into_reply();
    assert_eq!(reply.status, 200);
    assert_eq!(reply.json_body.as_deref(), Some(r#"{"message":"bad \"input\""}"#));
}

#[test]
fn custom_error_with_plain_message() {
    let reply = ServiceError::Custom(String::from("oops")).into_reply();
    assert_eq!(reply.status, STATUS_OK);
    assert_eq!(reply.json_body.as_deref(), Some(r#"{"message":"oops"}"#));
}

#[test]
fn io_error_replies_with_internal_status() {
    let reply = ServiceError::IO(std::io::Error::new(std::io::ErrorKind::Other, "disk")).into_reply();
    assert_eq!(reply.status, 500);
    assert!(reply.json_body.is_none());
}

#[test]
fn serde_error_replies_with_internal_status() {
    let reply = ServiceError::SERDE(json_failure()).into_reply();
    assert_eq!(reply.status, STATUS_INTERNAL_SERVER_ERROR);
    assert!(reply.json_body.is_none());
}

#[test]
fn message_body_frames_encoded_text() {
    assert_eq!(message_body("\"x\""), r#"{"message":"x"}"#);
    assert_eq!(message_body("\"\""), r#"{"message":""}"#);
}

#[test]
fn custom_reply_for_each_encoding_outcome() {
    let ok = custom_reply(Ok(String::from("\"hi\"")));
    assert_eq!(ok.status, 200);
    assert_eq!(ok.json_body.as_deref(), Some(r#"{"message":"hi"}"#));
    let failed = custom_reply(Err(json_failure()));
    assert_eq!(failed.status, 500);
    assert!(failed.json_body.is_none());
}

#[test]
fn conversions_pick_the_variant() {
    let io: ServiceError = std::io::Error::new(std::io::ErrorKind::Other, "x").into();
    assert!(matches!(io, ServiceError::IO(_)));
    let serde: ServiceError = json_failure().into();
    assert!(matches!(serde, ServiceError::SERDE(_)));
}
