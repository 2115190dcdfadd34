use axumbooru::auth::RequireAuth;
use axumbooru::auth::parse_authorization;

#[test]
fn is_some() {
    let x = RequireAuth::Basic { name: "".to_string(), password: "".to_string() };
    assert_eq!(x.is_some(), true)
}

#[test]
fn is_none() {
    let x = RequireAuth::Anonymous;
    assert_eq!(x.is_none(), true)
}

#[test]
fn default_is_unauthenticated() {
    let x = RequireAuth::default();
    assert_eq!(x, RequireAuth::Anonymous);
    assert!(x.is_none());
    assert!(!x.is_some());
}

#[test]
fn parse_missing_header() {
    assert_eq!(parse_authorization(None), Some(RequireAuth::Anonymous));
}

#[test]
fn parse_basic_credentials() {
    let r = parse_authorization(Some("Basic alice:pw1"));
    assert_eq!(
        r,
        Some(RequireAuth::Basic { name: "alice".to_string(), password: "pw1".to_string() })
    );
}

#[test]
fn parse_basic_splits_at_first_colon() {
    let r = parse_authorization(Some("Basic a:b:c"));
    assert_eq!(
        r,
        Some(RequireAuth::Basic { name: "a".to_string(), password: "b:c".to_string() })
    );
}

#[test]
fn parse_basic_without_colon_is_rejected() {
    assert_eq!(parse_authorization(Some("Basic nocolon")), None);
}

#[test]
fn parse_token_decodes_base64() {
    // "bmFtZTp0b2tlbg==" is the standard base64 form of "name:token".
    let r = parse_authorization(Some("Token bmFtZTp0b2tlbg=="));
    assert_eq!(
        r,
        Some(RequireAuth::Token { name: "name".to_string(), token: "token".to_string() })
    );
}

#[test]
fn parse_token_bad_base64_is_rejected() {
    assert_eq!(parse_authorization(Some("Token not-base64!")), None);
}

#[test]
fn parse_unknown_method_is_anonymous() {
    assert_eq!(parse_authorization(Some("Bearer abc")), Some(RequireAuth::Anonymous));
}

#[test]
fn parse_headless_value_is_anonymous() {
    assert_eq!(parse_authorization(Some("justdata")), Some(RequireAuth::Anonymous));
}
