use axumbooru::errors::LocatorError;
use axumbooru::locator::{get_post_content_path, get_post_security_hash, get_post_thumbnail_path};

#[test]
fn locator_hash_is_deterministic() {
    let a = get_post_security_hash(7, "key-one");
    let b = get_post_security_hash(7, "key-one");
    assert_eq!(a, b);
}

#[test]
fn locator_hash_changes_with_the_key() {
    let a = get_post_security_hash(7, "key-one");
    let b = get_post_security_hash(7, "key-two");
    assert_ne!(a, b);
}

#[test]
fn locator_hash_changes_with_the_id() {
    let a = get_post_security_hash(7, "key-one");
    let b = get_post_security_hash(8, "key-one");
    assert_ne!(a, b);
}

#[test]
fn locator_hash_is_sixteen_hex_chars() {
    let h = get_post_security_hash(123456789, "some-key");
    assert_eq!(h.len(), 16);
    assert!(h.chars().all(|c| c.is_ascii_hexdigit() && !c.is_ascii_uppercase()));
    // A keyed hash, not an echo of the id's digits.
    assert_ne!(h, "3132333435363738");
}

#[test]
fn content_path_format() {
    let p = get_post_content_path(42, "deadbeef01234567".to_string(), "image/png").unwrap();
    assert_eq!(p, "data/posts/42_deadbeef01234567.png");
}

#[test]
fn thumbnail_path_format() {
    let p = get_post_thumbnail_path(42, "deadbeef01234567".to_string());
    assert_eq!(p, "data/generated-thumbnails/42_deadbeef01234567.jpg");
}

#[test]
fn thumbnail_path_ignores_mime_type() {
    // Thumbnails are always one fixed image format.
    let p = get_post_thumbnail_path(9, "0123456789abcdef".to_string());
    assert!(p.ends_with(".jpg"));
}

#[test]
fn unknown_mime_type_is_refused() {
    let r = get_post_content_path(1, "abc".to_string(), "application/x-totally-unknown");
    assert_eq!(
        r,
        Err(LocatorError::UnknownMimeType("application/x-totally-unknown".to_string()))
    );
}

#[test]
fn content_path_for_jpeg() {
    let p = get_post_content_path(1, "00ff".to_string(), "image/jpeg").unwrap();
    assert!(p.starts_with("data/posts/1_00ff."));
}
