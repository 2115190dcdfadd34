//! Trusted access to the two digest primitives the library leans on: the
//! legacy 160-bit content digest used for upload tokens, and the keyed
//! MD5-based code used for locator hashes. Both results are functions of
//! their arguments alone, so each is given an uninterpreted name that the
//! callers' contracts speak of.

use vstd::prelude::*;

verus! {

/// The 160-bit content digest of a byte sequence.
pub uninterp spec fn sha1_of(bytes: Seq<u8>) -> Seq<u8>;

/// The keyed MD5-based authentication code of `msg` under `key`.
pub uninterp spec fn hmac_md5_of(key: Seq<char>, msg: Seq<char>) -> Seq<u8>;

/// Relies on ring::digest::digest with SHA1_FOR_LEGACY_USE_ONLY: the 20-byte
/// SHA-1 digest of the input, depending on the input bytes alone.
#[verifier::external_body]
pub fn sha1_digest(bytes: &[u8]) -> (r: Vec<u8>)
    ensures
        r@ == sha1_of(bytes@),
        r@.len() == 20,
{
    let digest = ring::digest::digest(&ring::digest::SHA1_FOR_LEGACY_USE_ONLY, bytes);
    digest.as_ref().to_vec()
}

/// Relies on hmac::Hmac over md5::Md5 (KeyInit, Mac): the 16-byte HMAC-MD5
/// of `msg` under `key`, depending on the two arguments alone; keys of any
/// length are accepted.
#[verifier::external_body]
pub fn hmac_md5(key: &str, msg: &str) -> (r: Vec<u8>)
    ensures
        r@ == hmac_md5_of(key@, msg@),
        r@.len() == 16,
{
    let mut mac = <hmac::Hmac<md5::Md5> as hmac::KeyInit>::new_from_slice(key.as_bytes())
        .expect("HMAC accepts keys of any length");
    hmac::Mac::update(&mut mac, msg.as_bytes());
    hmac::Mac::finalize(mac).into_bytes().to_vec()
}

} // verus!
