use axumbooru::errors::{ApiError, UploadError, to_upload_error};
use axumbooru::models::{ReverseSearchQuery, reverse_post_search};
use axumbooru::staging::Data;

#[test]
fn content_addressing_same_payload_twice() {
    let mut store = Data::new();
    let token = store.add("png", "image/png", b"abc").unwrap();
    // The token is the hex form of the content digest of the bytes alone.
    assert_eq!(token, "a9993e364706816aba3e25717850c26c9cd0d89d");
    // The second add derives the same token and is rejected as a duplicate,
    // whatever extension or content type it declares.
    let second = store.add("jpg", "image/jpeg", b"abc");
    assert_eq!(second, Err(UploadError::DuplicateUpload(token)));
}

#[test]
fn token_of_empty_payload() {
    let mut store = Data::new();
    let token = store.add("bin", "application/octet-stream", b"").unwrap();
    assert_eq!(token, "da39a3ee5e6b4b0d3255bfef95601890afd80709");
}

#[test]
fn round_trip_add_then_get() {
    let mut store = Data::new();
    let token = store.add("png", "image/png", b"some image bytes").unwrap();
    let staged = store.get(&token).unwrap();
    assert_eq!(staged.content_type, "image/png");
    assert_eq!(staged.filename, format!("{token}.png"));
    assert!(staged.filename.ends_with(".png"));
    // A plain lookup does not consume the entry.
    assert!(store.is_existing(&token));
    assert!(store.get(&token).is_some());
}

#[test]
fn redemption_is_single_use() {
    let mut store = Data::new();
    let token = store.add("gif", "image/gif", b"gif bytes").unwrap();
    let redeemed = store.get_and_remove(&token).unwrap();
    assert_eq!(redeemed.content_type, "image/gif");
    assert!(store.get(&token).is_none());
    assert!(store.get_and_remove(&token).is_none());
    assert!(!store.is_existing(&token));
}

#[test]
fn distinct_payloads_get_distinct_tokens() {
    let mut store = Data::new();
    let t1 = store.add("png", "image/png", b"first payload").unwrap();
    let t2 = store.add("png", "image/png", b"second payload").unwrap();
    assert_ne!(t1, t2);
    assert!(store.is_existing(&t1));
    assert!(store.is_existing(&t2));
    let listed = store.vec();
    assert_eq!(listed.len(), 2);
    let tokens: Vec<String> = listed.iter().map(|p| p.0.clone()).collect();
    assert!(tokens.contains(&t1));
    assert!(tokens.contains(&t2));
}

#[test]
fn unseen_token_resolves_to_nothing() {
    let mut store = Data::new();
    assert!(!store.is_existing("0000"));
    assert!(store.get("0000").is_none());
    assert!(store.get_and_remove("0000").is_none());
    assert!(store.vec().is_empty());
}

#[test]
fn reverse_search_requires_a_staged_token() {
    let mut store = Data::new();
    let token = store.add("png", "image/png", b"searched bytes").unwrap();
    let hit = reverse_post_search(&store, &ReverseSearchQuery { content_token: token });
    let hit = hit.unwrap();
    assert!(hit.exact_post.is_none());
    assert!(hit.similar_posts.is_empty());
    let miss = reverse_post_search(
        &store,
        &ReverseSearchQuery { content_token: "ffff".to_string() },
    );
    assert_eq!(miss.unwrap_err(), ApiError::Uploads);
}

#[test]
fn upload_failures_surface_as_the_upload_api_error() {
    let e = to_upload_error(UploadError::DuplicateUpload("t".to_string()));
    assert_eq!(e, ApiError::Uploads);
    let e = to_upload_error(UploadError::IoError("disk full".to_string()));
    assert_eq!(e, ApiError::Uploads);
}
