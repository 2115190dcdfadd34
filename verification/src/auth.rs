//! Authentication extraction: parses the value of an `Authorization` header
//! into its `Basic`, `Token` or absent form. A plain string split, no
//! cryptographic verification; the request layer runs it on every route.

use vstd::prelude::*;
use crate::strutil::{split_first, split_once_str};

verus! {

/// The credentials a request carried, if any.
#[derive(PartialEq, Debug)]
pub enum RequireAuth {
    /// `Basic {name}:{password}`, the two parts split at the first colon.
    Basic { name: String, password: String },
    /// `Token {base64 of name:token}`, decoded and split at the first colon.
    Token { name: String, token: String },
    /// No header, or a method this extractor does not know.
    Anonymous,
}

/// The mathematical shape of an extracted credential.
pub ghost enum AuthView {
    Basic { name: Seq<char>, password: Seq<char> },
    Token { name: Seq<char>, token: Seq<char> },
    Anonymous,
}

impl View for RequireAuth {
    type V = AuthView;

    open spec fn view(&self) -> AuthView {
        match self {
            RequireAuth::Basic { name, password } => AuthView::Basic {
                name: name@,
                password: password@,
            },
            RequireAuth::Token { name, token } => AuthView::Token { name: name@, token: token@ },
            RequireAuth::Anonymous => AuthView::Anonymous,
        }
    }
}

impl core::default::Default for RequireAuth {
    /// An unauthenticated request.
    fn default() -> (d: RequireAuth)
        ensures
            d is Anonymous,
    {
        RequireAuth::Anonymous
    }
}

impl RequireAuth {
    /// Whether the request carried any credentials.
    pub fn is_some(&self) -> (r: bool)
        ensures
            r == !(*self is Anonymous),
    {
        match self {
            RequireAuth::Anonymous => false,
            _ => true,
        }
    }

    /// Whether the request carried no credentials.
    pub fn is_none(&self) -> (r: bool)
        ensures
            r == (*self is Anonymous),
    {
        match self {
            RequireAuth::Anonymous => true,
            _ => false,
        }
    }
}

/// The bytes a standard padded base64 string denotes, `None` when the
/// string is not valid base64.
pub uninterp spec fn base64_decoded(s: Seq<char>) -> Option<Seq<u8>>;

/// The character sequence a byte sequence encodes in UTF-8, `None` when the
/// bytes are not valid UTF-8.
pub uninterp spec fn utf8_decoded(bytes: Seq<u8>) -> Option<Seq<char>>;

/// Relies on data_encoding::BASE64.decode: the bytes the input denotes in
/// standard padded base64, an error for invalid input; the result depends
/// on the input alone.
#[verifier::external_body]
fn base64_decode(s: &str) -> (r: Option<Vec<u8>>)
    ensures
        match r {
            Option::Some(b) => base64_decoded(s@) == Option::Some(b@),
            Option::None => base64_decoded(s@) is None,
        },
{
    match data_encoding::BASE64.decode(s.as_bytes()) {
        Result::Ok(b) => Option::Some(b),
        Result::Err(_) => Option::None,
    }
}

/// Relies on std's String::from_utf8: the characters the bytes encode in
/// UTF-8, an error for invalid UTF-8; the result depends on the input alone.
#[verifier::external_body]
fn string_from_utf8(bytes: Vec<u8>) -> (r: Option<String>)
    ensures
        match r {
            Option::Some(s) => utf8_decoded(bytes@) == Option::Some(s@),
            Option::None => utf8_decoded(bytes@) is None,
        },
{
    String::from_utf8(bytes).ok()
}

/// An `Option<&str>` header value as an optional character sequence.
pub open spec fn opt_str_view(header: Option<&str>) -> Option<Seq<char>> {
    match header {
        Option::Some(h) => Option::Some(h@),
        Option::None => Option::None,
    }
}

/// What extraction makes of a header value: no header and an unknown method
/// both mean an unauthenticated request; a malformed `Basic` or `Token`
/// value (no colon, bad base64, bad UTF-8) is rejected outright.
pub open spec fn auth_of(header: Option<Seq<char>>) -> Option<AuthView> {
    match header {
        Option::None => Option::Some(AuthView::Anonymous),
        Option::Some(h) => {
            let (method, rest) = match split_first(h, ' ') {
                Option::Some(p) => p,
                Option::None => (Seq::empty(), h),
            };
            if method == "Basic"@ {
                match split_first(rest, ':') {
                    Option::Some(p) => Option::Some(AuthView::Basic { name: p.0, password: p.1 }),
                    Option::None => Option::None,
                }
            } else if method == "Token"@ {
                match base64_decoded(rest) {
                    Option::Some(bytes) => match utf8_decoded(bytes) {
                        Option::Some(d) => match split_first(d, ':') {
                            Option::Some(p) => Option::Some(
                                AuthView::Token { name: p.0, token: p.1 },
                            ),
                            Option::None => Option::None,
                        },
                        Option::None => Option::None,
                    },
                    Option::None => Option::None,
                }
            } else {
                Option::Some(AuthView::Anonymous)
            }
        },
    }
}

/// Extracts the credentials from an `Authorization` header value, `None`
/// for a malformed `Basic` or `Token` value that the request layer must
/// refuse.
pub fn parse_authorization(header: Option<&str>) -> (r: Option<RequireAuth>)
    ensures
        match r {
            Option::Some(a) => auth_of(opt_str_view(header)) == Option::Some(a@),
            Option::None => auth_of(opt_str_view(header)) is None,
        },
{
    match header {
        Option::None => Option::Some(RequireAuth::Anonymous),
        Option::Some(h) => {
            let (method, rest): (String, String) = match split_once_str(h, ' ') {
                Option::Some(p) => p,
                Option::None => (String::new(), h.to_owned()),
            };
            if method == "Basic".to_owned() {
                match split_once_str(rest.as_str(), ':') {
                    Option::Some(p) => Option::Some(
                        RequireAuth::Basic { name: p.0, password: p.1 },
                    ),
                    Option::None => Option::None,
                }
            } else if method == "Token".to_owned() {
                match base64_decode(rest.as_str()) {
                    Option::Some(bytes) => match string_from_utf8(bytes) {
                        Option::Some(decoded) => match split_once_str(decoded.as_str(), ':') {
                            Option::Some(p) => Option::Some(
                                RequireAuth::Token { name: p.0, token: p.1 },
                            ),
                            Option::None => Option::None,
                        },
                        Option::None => Option::None,
                    },
                    Option::None => Option::None,
                }
            } else {
                Option::Some(RequireAuth::Anonymous)
            }
        },
    }
}

} // verus!
