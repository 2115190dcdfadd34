//! Deterministic resource locator: derives obfuscated, cache-stable public
//! paths for a post's content and thumbnail files from the post id and a
//! server-wide secret, and resolves a MIME type to a file extension for the
//! content path. Everything here is a pure function of its arguments.

use vstd::prelude::*;
use crate::errors::LocatorError;
use crate::hashing::{hmac_md5, hmac_md5_of};
use crate::strutil::{dec_of, hex_of, to_hex, u64_to_dec};

verus! {

/// The first file extension a standard MIME-to-extension table associates
/// with a MIME type, `None` when the type is unknown to the table.
pub uninterp spec fn mime_ext_of(mime: Seq<char>) -> Option<Seq<char>>;

/// Relies on mime_guess2::get_mime_extensions_str: the known extensions of
/// a MIME type string (parameters ignored, case-insensitive), `None` for an
/// unknown type; the table and hence the result depend on the argument alone.
#[verifier::external_body]
fn mime_first_extension(mime: &str) -> (r: Option<String>)
    ensures
        match r {
            Option::Some(ext) => mime_ext_of(mime@) == Option::Some(ext@),
            Option::None => mime_ext_of(mime@) is None,
        },
{
    match mime_guess2::get_mime_extensions_str(mime) {
        Option::Some(exts) => match exts.first() {
            Option::Some(ext) => Option::Some((*ext).to_string()),
            Option::None => Option::None,
        },
        Option::None => Option::None,
    }
}

/// The locator hash: the keyed MD5-based code over the decimal form of the
/// id, truncated to its first 8 bytes and then hex-encoded, so 16 characters.
pub open spec fn security_hash_of(id: u64, key: Seq<char>) -> Seq<char> {
    hex_of(hmac_md5_of(key, dec_of(id as nat)).take(8))
}

/// The public path of a post's content file.
pub open spec fn content_path_of(id: u64, hash: Seq<char>, ext: Seq<char>) -> Seq<char> {
    "data/posts/"@ + dec_of(id as nat) + seq!['_'] + hash + seq!['.'] + ext
}

/// The public path of a post's thumbnail file; thumbnails are always
/// re-encoded to one fixed image format, whatever the source MIME type.
pub open spec fn thumbnail_path_of(id: u64, hash: Seq<char>) -> Seq<char> {
    "data/generated-thumbnails/"@ + dec_of(id as nat) + seq!['_'] + hash + ".jpg"@
}

/// Derives the short keyed hash that makes a post's public paths
/// non-enumerable: HMAC-MD5 over the decimal form of `id` with `key` as the
/// key, truncated to 8 bytes before hex-encoding.
pub fn get_post_security_hash(id: u64, key: &str) -> (r: String)
    ensures
        r@ == security_hash_of(id, key@),
        r@.len() == 16,
{
    let dec = u64_to_dec(id);
    let mut mac = hmac_md5(key, dec.as_str());
    mac.truncate(8);
    proof {
        assert(mac@ == hmac_md5_of(key@, dec_of(id as nat)).take(8));
        crate::strutil::lemma_hex_of_len(mac@);
    }
    to_hex(mac.as_slice())
}

/// Builds the content path `data/posts/{id}_{hash}.{extension}`, with the
/// extension resolved from `mime`; an unknown MIME type is refused.
pub fn get_post_content_path(id: u64, hash: String, mime: &str) -> (r: Result<
    String,
    LocatorError,
>)
    ensures
        match r {
            Result::Ok(p) => mime_ext_of(mime@) matches Option::Some(ext) && p@
                == content_path_of(id, hash@, ext),
            Result::Err(e) => mime_ext_of(mime@) is None && (e matches
            LocatorError::UnknownMimeType(m) && m@ == mime@),
        },
{
    match mime_first_extension(mime) {
        Option::Some(ext) => {
            let mut p = String::new();
            p.append("data/posts/");
            p.append(u64_to_dec(id).as_str());
            p.append("_");
            p.append(hash.as_str());
            p.append(".");
            p.append(ext.as_str());
            proof {
                reveal_strlit("_");
                reveal_strlit(".");
                assert("_"@ =~= seq!['_']);
                assert("."@ =~= seq!['.']);
                assert(p@ =~= content_path_of(id, hash@, ext@));
            }
            Result::Ok(p)
        },
        Option::None => Result::Err(LocatorError::UnknownMimeType(mime.to_owned())),
    }
}

/// Builds the thumbnail path `data/generated-thumbnails/{id}_{hash}.jpg`.
pub fn get_post_thumbnail_path(id: u64, hash: String) -> (r: String)
    ensures
        r@ == thumbnail_path_of(id, hash@),
{
    let mut p = String::new();
    p.append("data/generated-thumbnails/");
    p.append(u64_to_dec(id).as_str());
    p.append("_");
    p.append(hash.as_str());
    p.append(".jpg");
    proof {
        reveal_strlit("_");
        assert("_"@ =~= seq!['_']);
        assert(p@ =~= thumbnail_path_of(id, hash@));
    }
    p
}

/// Locator determinism: the hash is a pure function of the id and the
/// secret, so any two computations for the same pair agree.
pub proof fn lemma_locator_hash_deterministic(a: Seq<char>, b: Seq<char>, id: u64, key: Seq<char>)
    requires
        a == security_hash_of(id, key),
        b == security_hash_of(id, key),
    ensures
        a == b,
{
}

} // verus!
