use taskscore::credential::{CredentialError, LoginRequest, split_at_colon};

fn parse(h: &str) -> Result<LoginRequest, CredentialError> {
    LoginRequest::from_authorization(Some(h))
}

#[test]
fn basic_header_with_password() {
    let c = parse("Basic YWxpY2U6c2VjcmV0").unwrap();
    assert_eq!(c.username, "alice");
    assert_eq!(c.password, Some("secret".to_string()));
}

#[test]
fn basic_header_without_colon() {
    let c = parse("Basic YWxpY2U=").unwrap();
    assert_eq!(c.username, "alice");
    assert_eq!(c.password, None);
}

#[test]
fn password_keeps_later_colons() {
    let c = parse("Basic YTpiOmM=").unwrap();
    assert_eq!(c.username, "a");
    assert_eq!(c.password, Some("b:c".to_string()));
}

#[test]
fn empty_password_and_empty_username() {
    let c = parse("Basic Ym9iOg==").unwrap();
    assert_eq!(c.username, "bob");
    assert_eq!(c.password, Some(String::new()));
    let c = parse("Basic OnB3").unwrap();
    assert_eq!(c.username, "");
    assert_eq!(c.password, Some("pw".to_string()));
}

#[test]
fn header_without_basic_prefix() {
    assert_eq!(parse("Bearer YWxpY2U6c2VjcmV0").unwrap_err(), CredentialError::NotBasic);
    assert_eq!(parse("YWxpY2U6c2VjcmV0").unwrap_err(), CredentialError::NotBasic);
    assert_eq!(parse("basic YWxpY2U6c2VjcmV0").unwrap_err(), CredentialError::NotBasic);
    assert_eq!(parse("Basic").unwrap_err(), CredentialError::NotBasic);
}

#[test]
fn missing_header_is_unauthenticated() {
    assert_eq!(LoginRequest::from_authorization(None).unwrap_err(), CredentialError::Missing);
}

#[test]
fn empty_payload() {
    assert_eq!(parse("Basic ").unwrap_err(), CredentialError::Empty);
}

#[test]
fn invalid_base64() {
    assert_eq!(parse("Basic !!!!").unwrap_err(), CredentialError::NotBase64);
    assert_eq!(parse("Basic  YWxpY2U=").unwrap_err(), CredentialError::NotBase64);
}

#[test]
fn invalid_utf8() {
    assert_eq!(parse("Basic //4=").unwrap_err(), CredentialError::NotUtf8);
}

#[test]
fn split_at_first_colon() {
    assert_eq!(split_at_colon("x:y"), ("x".to_string(), Some("y".to_string())));
    assert_eq!(split_at_colon("xy"), ("xy".to_string(), None));
    assert_eq!(split_at_colon("é:ü:"), ("é".to_string(), Some("ü:".to_string())));
}
