//! Upload staging store: a process-wide map from a content-derived token to
//! a staged upload's metadata. The token is the hex-encoded content digest
//! of the raw bytes, so identical payloads collide and are never staged
//! twice within one window. The store itself only governs the map; writing
//! the staged bytes under `{token}.{extension}` in the staging directory is
//! the caller's filesystem-side step, taken outside the map operations.

use vstd::prelude::*;
use crate::errors::UploadError;
use crate::hashing::{sha1_digest, sha1_of};
use crate::strutil::{hex_of, to_hex};

verus! {

/// A file the client has sent but not yet attached to a persisted resource.
#[derive(Debug, Clone)]
pub struct Upload {
    /// `{token}.{extension}`: the name under which the bytes are written to
    /// the staging directory.
    pub filename: String,
    /// The client-declared MIME type, trusted as-is and not sniffed.
    pub content_type: String,
}

impl View for Upload {
    type V = (Seq<char>, Seq<char>);

    open spec fn view(&self) -> (Seq<char>, Seq<char>) {
        (self.filename@, self.content_type@)
    }
}

/// What a staging store holds: each staged token with its entry's stored
/// filename and content type.
pub type StagedView = Map<Seq<char>, (Seq<char>, Seq<char>)>;

/// A store view staging nothing.
pub open spec fn empty_staged() -> StagedView {
    Map::empty()
}

#[verifier::external_type_specification]
#[verifier::external_body]
#[verifier::reject_recursive_types(K)]
#[verifier::reject_recursive_types(V)]
#[verifier::reject_recursive_types(S)]
pub struct ExDashMap<K, V, S>(dashmap::DashMap<K, V, S>);

/// The entries a concurrent token map holds, as a map over the views of its
/// keys and values.
pub uninterp spec fn staged_entries(m: dashmap::DashMap<String, Upload>) -> StagedView;

/// Relies on dashmap::DashMap::insert: maps the key to the value, returning
/// the value the key held before, if any.
#[verifier::external_body]
fn dm_insert(m: &mut dashmap::DashMap<String, Upload>, key: String, value: Upload) -> (prev: Option<
    Upload,
>)
    ensures
        staged_entries(*final(m)) == staged_entries(*old(m)).insert(key@, value@),
        match prev {
            Option::Some(p) => staged_entries(*old(m)).contains_pair(key@, p@),
            Option::None => !staged_entries(*old(m)).dom().contains(key@),
        },
{
    m.insert(key, value)
}

/// Relies on dashmap::DashMap::remove: drops the key's entry and returns it,
/// or returns nothing and changes nothing when the key is absent.
#[verifier::external_body]
fn dm_remove(m: &mut dashmap::DashMap<String, Upload>, key: &str) -> (r: Option<Upload>)
    ensures
        match r {
            Option::Some(u) => staged_entries(*old(m)).contains_pair(key@, u@) && staged_entries(
                *final(m),
            ) == staged_entries(*old(m)).remove(key@),
            Option::None => !staged_entries(*old(m)).dom().contains(key@) && staged_entries(
                *final(m),
            ) == staged_entries(*old(m)),
        },
{
    m.remove(key).map(|kv| kv.1)
}

/// Relies on dashmap::DashMap::contains_key.
#[verifier::external_body]
fn dm_contains(m: &dashmap::DashMap<String, Upload>, key: &str) -> (r: bool)
    ensures
        r == staged_entries(*m).dom().contains(key@),
{
    m.contains_key(key)
}

/// Relies on dashmap::DashMap::get: a look at the key's entry, cloned out of
/// its guard, without removing it.
#[verifier::external_body]
fn dm_get(m: &dashmap::DashMap<String, Upload>, key: &str) -> (r: Option<Upload>)
    ensures
        match r {
            Option::Some(u) => staged_entries(*m).contains_pair(key@, u@),
            Option::None => !staged_entries(*m).dom().contains(key@),
        },
{
    m.get(key).map(|guard| guard.value().clone())
}

/// Relies on dashmap::DashMap::iter: every entry of the map, each exactly
/// once, in no guaranteed order.
#[verifier::external_body]
fn dm_to_pairs(m: &dashmap::DashMap<String, Upload>) -> (r: Vec<(String, Upload)>)
    ensures
        forall|i: int|
            0 <= i < r@.len() ==> staged_entries(*m).contains_pair(#[trigger] r@[i].0@, r@[i].1@),
        forall|k: Seq<char>|
            staged_entries(*m).dom().contains(k) ==> exists|i: int|
                0 <= i < r@.len() && #[trigger] r@[i].0@ == k,
        forall|i: int, j: int| 0 <= i < j < r@.len() ==> r@[i].0@ != r@[j].0@,
{
    let mut pairs = Vec::new();
    for entry in m.iter() {
        pairs.push((entry.key().clone(), entry.value().clone()));
    }
    pairs
}

/// The content token of a payload: the hex-encoded content digest of the
/// exact byte sequence received, independent of the declared extension and
/// content type.
pub open spec fn token_of(bytes: Seq<u8>) -> Seq<char> {
    hex_of(sha1_of(bytes))
}

/// The name a staged payload is stored under: `{token}.{extension}`.
pub open spec fn stored_name_of(bytes: Seq<u8>, ext: Seq<char>) -> Seq<char> {
    token_of(bytes) + seq!['.'] + ext
}

/// The upload staging store.
#[derive(Debug)]
pub struct Data {
    map: dashmap::DashMap<String, Upload>,
}

impl View for Data {
    type V = StagedView;

    closed spec fn view(&self) -> StagedView {
        staged_entries(self.map)
    }
}

impl Data {
    /// A fresh store staging nothing. Relies on dashmap::DashMap::new, which
    /// creates an empty map.
    #[verifier::external_body]
    pub fn new() -> (d: Self)
        ensures
            d@ == empty_staged(),
    {
        Data { map: dashmap::DashMap::new() }
    }

    /// A snapshot of every staged entry with its token; order is not
    /// guaranteed.
    pub fn vec(&self) -> (r: Vec<(String, Upload)>)
        ensures
            forall|i: int|
                0 <= i < r@.len() ==> self@.contains_pair(#[trigger] r@[i].0@, r@[i].1@),
            forall|k: Seq<char>|
                self@.dom().contains(k) ==> exists|i: int|
                    0 <= i < r@.len() && #[trigger] r@[i].0@ == k,
            forall|i: int, j: int| 0 <= i < j < r@.len() ==> r@[i].0@ != r@[j].0@,
    {
        dm_to_pairs(&self.map)
    }

    /// A look at a staged entry without removing it; `None` for a token
    /// unseen or already redeemed.
    pub fn get(&self, token: &str) -> (r: Option<Upload>)
        ensures
            match r {
                Option::Some(u) => self@.contains_pair(token@, u@),
                Option::None => !self@.dom().contains(token@),
            },
    {
        dm_get(&self.map, token)
    }

    /// Redemption: removes and returns the staged entry, so a token is
    /// consumed exactly once; `None` for a token unseen or already redeemed.
    /// The staged file stays on disk until the startup flush.
    pub fn get_and_remove(&mut self, token: &str) -> (r: Option<Upload>)
        ensures
            match r {
                Option::Some(u) => old(self)@.contains_pair(token@, u@) && final(self)@ == old(
                    self,
                )@.remove(token@),
                Option::None => !old(self)@.dom().contains(token@) && final(self)@ == old(self)@,
            },
    {
        dm_remove(&mut self.map, token)
    }

    /// Whether a token is currently staged; no side effect.
    pub fn is_existing(&self, token: &str) -> (r: bool)
        ensures
            r == self@.dom().contains(token@),
    {
        dm_contains(&self.map, token)
    }

    /// Stages a payload: derives the content token from the bytes, refuses a
    /// token already staged, and records the entry under the token. On
    /// success the caller still has to write the bytes to
    /// `staging_dir/{token}.{extension}`; the map is never held across that
    /// write.
    pub fn add(&mut self, extension: &str, content_type: &str, raw: &[u8]) -> (r: Result<
        String,
        UploadError,
    >)
        ensures
            r is Ok <==> !old(self)@.dom().contains(token_of(raw@)),
            match r {
                Result::Ok(token) => token@ == token_of(raw@) && token@.len() == 40
                    && final(self)@ == old(self)@.insert(
                    token_of(raw@),
                    (stored_name_of(raw@, extension@), content_type@),
                ),
                Result::Err(e) => (e matches UploadError::DuplicateUpload(t) && t@ == token_of(
                    raw@,
                )) && final(self)@ == old(self)@,
            },
    {
        let digest = sha1_digest(raw);
        let token = to_hex(digest.as_slice());
        proof {
            crate::strutil::lemma_hex_of_len(digest@);
        }
        if self.is_existing(token.as_str()) {
            return Result::Err(UploadError::DuplicateUpload(token));
        }
        let mut filename = token.clone();
        filename.append(".");
        filename.append(extension);
        proof {
            reveal_strlit(".");
            assert("."@ =~= seq!['.']);
            assert(filename@ =~= stored_name_of(raw@, extension@));
        }
        let upload = Upload { filename, content_type: content_type.to_owned() };
        let _prev = dm_insert(&mut self.map, token.clone(), upload);
        Result::Ok(token)
    }
}

impl core::default::Default for Data {
    /// A fresh store staging nothing.
    fn default() -> (d: Data)
        ensures
            d@ == empty_staged(),
    {
        Data::new()
    }
}

/// Content addressing: the token is derived from the payload bytes alone,
/// so a second add of the same payload derives the same token and finds it
/// staged, whatever extension or content type the second call declares:
/// it is rejected as a duplicate.
pub proof fn lemma_content_addressing(m: StagedView, p: Seq<u8>, entry: (Seq<char>, Seq<char>))
    requires
        !m.dom().contains(token_of(p)),
    ensures
        m.insert(token_of(p), entry).dom().contains(token_of(p)),
{
}

/// Round trip: after a successful add of a payload with extension `ext` and
/// content type `ct`, the returned token resolves to exactly the staged
/// entry, and the stored filename's extension equals `ext`.
pub proof fn lemma_add_get_round_trip(m: StagedView, p: Seq<u8>, ext: Seq<char>, ct: Seq<char>)
    ensures
        m.insert(token_of(p), (stored_name_of(p, ext), ct))[token_of(p)] == (stored_name_of(
            p,
            ext,
        ), ct),
        stored_name_of(p, ext).skip(stored_name_of(p, ext).len() - ext.len()) == ext,
{
    assert(stored_name_of(p, ext).skip(stored_name_of(p, ext).len() - ext.len()) =~= ext);
}

/// Redemption is single-use: once a token's entry is removed, the token no
/// longer resolves, so a later lookup or removal under it returns nothing.
pub proof fn lemma_redemption_single_use(m: StagedView, t: Seq<char>)
    ensures
        !m.remove(t).dom().contains(t),
{
}

} // verus!
