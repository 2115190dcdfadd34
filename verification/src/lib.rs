//! Core logic of a booru-style media backend.
//!
//! Two small components carry the interesting invariants: a content-addressed
//! staging store for uploaded byte payloads ([`staging`]), and a deterministic
//! locator that derives obfuscated public paths for a post's content and
//! thumbnail files ([`locator`]). Around them stand the authentication-header
//! extractor ([`auth`]), the typed errors ([`errors`]), and the plain data
//! types of the HTTP surface ([`models`], [`config`], [`ranks`]).

pub mod auth;
pub mod config;
pub mod errors;
pub mod hashing;
pub mod locator;
pub mod models;
pub mod ranks;
pub mod staging;
pub mod strutil;
