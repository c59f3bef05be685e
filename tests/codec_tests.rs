use ecr_secret_sync::codec::{decode_token, split_credential};
use ecr_secret_sync::error::ErrorKind;

#[test]
fn decode_user_pass() {
    let c = decode_token("dXNlcjpwYXNz").unwrap();
    assert_eq!(c.username, "user");
    assert_eq!(c.password, "pass");
}

#[test]
fn decode_splits_only_at_first_colon() {
    let c = decode_token("dXNlcjpwYTpzcw==").unwrap();
    assert_eq!(c.username, "user");
    assert_eq!(c.password, "pa:ss");
}

#[test]
fn decode_aws_token() {
    let c = decode_token("QVdTOmFiY0RFRjEyMw==").unwrap();
    assert_eq!(c.username, "AWS");
    assert_eq!(c.password, "abcDEF123");
}

#[test]
fn decode_invalid_base64_is_decode_error() {
    assert_eq!(decode_token("!!not base64!!").unwrap_err(), ErrorKind::DecodeError);
    assert_eq!(decode_token("dXNlcjpwYXN").unwrap_err(), ErrorKind::DecodeError);
}

#[test]
fn decode_invalid_utf8_is_decode_error() {
    assert_eq!(decode_token("//4=").unwrap_err(), ErrorKind::DecodeError);
}

#[test]
fn decode_without_colon_is_malformed() {
    assert_eq!(decode_token("dXNlcnBhc3M=").unwrap_err(), ErrorKind::MalformedTokenError);
}

#[test]
fn decode_empty_token_is_malformed() {
    assert_eq!(decode_token("").unwrap_err(), ErrorKind::MalformedTokenError);
}

#[test]
fn decode_empty_username_or_password() {
    let c = decode_token("Om9ubHlwYXNz").unwrap();
    assert_eq!(c.username, "");
    assert_eq!(c.password, "onlypass");
    let c = decode_token("dXNlcjo=").unwrap();
    assert_eq!(c.username, "user");
    assert_eq!(c.password, "");
}

#[test]
fn split_non_ascii_text() {
    let c = split_credential("jürgen:pä:ß").unwrap();
    assert_eq!(c.username, "jürgen");
    assert_eq!(c.password, "pä:ß");
    assert_eq!(split_credential("ümlaut").unwrap_err(), ErrorKind::MalformedTokenError);
}

#[test]
fn fatal_errors() {
    assert!(ErrorKind::TokenFetchFailed.is_fatal());
    assert!(ErrorKind::DecodeError.is_fatal());
    assert!(ErrorKind::MalformedTokenError.is_fatal());
    assert!(!ErrorKind::DeleteFailed.is_fatal());
    assert!(!ErrorKind::CreateFailed.is_fatal());
}
