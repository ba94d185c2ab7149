//! Session derivation from a signed bearer token, and per-request message
//! signature verification. A bearer token is a compact HS256-signed token:
//! three base64url segments joined by dots, the third an HMAC-SHA256 tag
//! over the first two. Its payload must carry a subject identifier and may
//! carry a device public key; expiration is deliberately not enforced, as
//! tokens are treated as long-lived. Successful resolutions are memoized by
//! the exact token string.

use vstd::prelude::*;

use crate::bytes::{
    bytes_eq, lemma_split_on_append, lemma_split_on_count, lemma_split_on_sep_free, push_all,
    sep_free, split_on,
};
use crate::cache::MemoCache;
use crate::crypto::{hmac_sha256, hmac_sha256_of, p384_check_key, p384_key_ok, p384_sig_ok,
    p384_verify};
use crate::encoding::{
    b64_decode, b64_decode_of, b64_encode, b64_encode_of, b64url_decode, b64url_decode_of,
    b64url_encode, b64url_encode_of, json_str_field, json_str_field_of, uuid_of, uuid_parse,
};
use crate::error::{ErrorModel, ErrorModelKind};
use crate::id::{Id, UserMarker};
use vstd::slice::{slice_subrange, slice_to_vec};
use vstd::string::StringSliceAdditionalSpecFns;

verus! {

/// The dot joining a token's segments.
pub const TOKEN_SEP: u8 = 46;

/// The claims a well-signed token carries: the subject's 16 identifier
/// bytes, and the base64 text of the device public key when one is present.
/// `None` when the token is not three dot-joined segments, its header is not
/// an HS256 header, its tag does not match the key, its payload lacks a
/// subject UUID, or its device-key field is not a string.
pub open spec fn token_claims_of(token: Seq<u8>, key: Seq<u8>) -> Option<
    (Seq<u8>, Option<Seq<u8>>),
> {
    let parts = split_on(token, TOKEN_SEP);
    if parts.len() != 3 {
        None
    } else {
        match b64url_decode_of(parts[0]) {
            None => None,
            Some(header) => {
                if json_str_field_of(header, "alg"@) != Some(
                    Ok::<Seq<u8>, ()>("HS256".spec_bytes()),
                ) {
                    None
                } else if parts[2] != b64url_encode_of(
                    hmac_sha256_of(key, parts[0] + seq![TOKEN_SEP] + parts[1]),
                ) {
                    None
                } else {
                    match b64url_decode_of(parts[1]) {
                        None => None,
                        Some(payload) => match json_str_field_of(payload, "sub"@) {
                            Some(Ok(sub)) => match uuid_of(sub) {
                                Some(id) => match json_str_field_of(
                                    payload,
                                    "device_public_key"@,
                                ) {
                                    None => Some((id, None)),
                                    Some(Ok(dpk)) => Some((id, Some(dpk))),
                                    Some(Err(())) => None,
                                },
                                None => None,
                            },
                            _ => None,
                        },
                    }
                }
            },
        }
    }
}

/// The session a token denotes: the subject's identifier bytes and, when a
/// device key is enrolled, its decoded SEC1 bytes. `None` when the token's
/// claims do not verify, or its device-key text does not decode to a
/// structurally valid P-384 key.
pub open spec fn session_of(token: Seq<u8>, key: Seq<u8>) -> Option<(Seq<u8>, Option<Seq<u8>>)> {
    match token_claims_of(token, key) {
        None => None,
        Some((id, None)) => Some((id, None)),
        Some((id, Some(dpk))) => match b64_decode_of(dpk) {
            Some(raw) => if p384_key_ok(raw) {
                Some((id, Some(raw)))
            } else {
                None
            },
            None => None,
        },
    }
}

/// A caller's established identity: who they are, and the device public key
/// their requests must be signed with, when one is enrolled.
#[derive(Debug)]
pub struct SessionModel {
    pub user_id: Id<UserMarker>,
    pub public_key: Option<Vec<u8>>,
}

impl View for SessionModel {
    type V = (Seq<u8>, Option<Seq<u8>>);

    open spec fn view(&self) -> (Seq<u8>, Option<Seq<u8>>) {
        (
            self.user_id.value@,
            match self.public_key {
                Some(k) => Some(k@),
                None => None,
            },
        )
    }
}

impl SessionModel {
    /// The device public key, when present, is a structurally valid P-384
    /// key in SEC1 bytes.
    pub open spec fn wf(self) -> bool {
        &&& self.user_id.wf()
        &&& match self.public_key {
            Some(k) => p384_key_ok(k@),
            None => true,
        }
    }

    /// Builds a session from a subject identifier and the base64 text of an
    /// optional device public key. A device key that does not decode to a
    /// valid P-384 key is a hard credential failure, not a silent absence.
    pub fn new(user_id: Id<UserMarker>, public_key: Option<Vec<u8>>) -> (r: Result<
        Self,
        ErrorModel,
    >)
        requires
            user_id.wf(),
        ensures
            match r {
                Ok(s) => {
                    &&& s.wf()
                    &&& s.user_id.value@ == user_id.value@
                    &&& match public_key {
                        None => s.public_key is None,
                        Some(text) => s.public_key matches Some(k) && b64_decode_of(text@)
                            == Some(k@) && p384_key_ok(k@),
                    }
                },
                Err(e) => {
                    &&& e.error is InvalidCredentials
                    &&& public_key matches Some(text) && (match b64_decode_of(text@) {
                        Some(raw) => !p384_key_ok(raw),
                        None => true,
                    })
                },
            },
    {
        match public_key {
            None => Ok(SessionModel { user_id, public_key: None }),
            Some(text) => {
                match b64_decode(text.as_slice()) {
                    None => Err(ErrorModelKind::InvalidCredentials.model()),
                    Some(raw) => {
                        if p384_check_key(raw.as_slice()) {
                            Ok(SessionModel { user_id, public_key: Some(raw) })
                        } else {
                            Err(ErrorModelKind::InvalidCredentials.model())
                        }
                    },
                }
            },
        }
    }
}

/// A possibly-absent session: what a request without a bearer token yields.
/// Resolution itself never sees the absent case - only a present token is
/// resolved - so it falls to this wrapper to tell "no session" from
/// "invalid session".
pub struct SessionOption<'a> {
    pub inner: Option<&'a SessionModel>,
}

impl<'a> SessionOption<'a> {
    /// Demands a session: an absent one is a missing credential, which is
    /// its own failure, distinct from an invalid one.
    pub fn required(self) -> (r: Result<&'a SessionModel, ErrorModel>)
        ensures
            match r {
                Ok(s) => self.inner == Some(s),
                Err(e) => self.inner is None && e.error is MissingCredentials,
            },
    {
        match self.inner {
            Some(s) => Ok(s),
            None => Err(ErrorModelKind::MissingCredentials.model()),
        }
    }
}

/// Tamper rejection for the signature segment: flipping any one byte of the
/// third segment of a token whose claims verify yields a token whose claims
/// do not. The change either breaks the tag comparison or changes the
/// segment structure; both are rejections.
pub proof fn lemma_signature_tamper(token: Seq<u8>, key: Seq<u8>, i: int, b: u8)
    requires
        token_claims_of(token, key) is Some,
        token.len() - split_on(token, TOKEN_SEP)[2].len() <= i < token.len(),
        b != token[i],
    ensures
        token_claims_of(token.update(i, b), key) is None,
{
    let parts = split_on(token, TOKEN_SEP);
    let p0 = parts[0];
    let p1 = parts[1];
    let p2 = parts[2];
    crate::bytes::lemma_split_on_structure(token, TOKEN_SEP);
    assert(parts.len() == 3);
    assert(crate::bytes::join_pieces(parts, TOKEN_SEP) == p0 + seq![TOKEN_SEP] + (p1 + seq![
        TOKEN_SEP,
    ] + p2)) by {
        assert(parts.drop_first() =~= seq![p1, p2]);
        assert(parts.drop_first().drop_first() =~= seq![p2]);
        assert(crate::bytes::join_pieces(seq![p2], TOKEN_SEP) == p2);
        assert(p0 + seq![TOKEN_SEP] + crate::bytes::join_pieces(seq![p1, p2], TOKEN_SEP) =~= p0
            + seq![TOKEN_SEP] + (p1 + seq![TOKEN_SEP] + p2));
    }
    let offset = token.len() - p2.len();
    assert(token =~= p0 + seq![TOKEN_SEP] + (p1 + seq![TOKEN_SEP] + p2));
    assert(offset == p0.len() + 1 + p1.len() + 1);
    let j = i - offset;
    assert(token[i] == p2[j]);
    let t2 = token.update(i, b);
    if b != TOKEN_SEP {
        let q2 = p2.update(j, b);
        assert(sep_free(q2, TOKEN_SEP));
        assert(t2 =~= p0 + seq![TOKEN_SEP] + (p1 + seq![TOKEN_SEP] + q2));
        lemma_split_on_append(p0, p1 + seq![TOKEN_SEP] + q2, TOKEN_SEP);
        lemma_split_on_append(p1, q2, TOKEN_SEP);
        lemma_split_on_sep_free(q2, TOKEN_SEP);
        let parts2 = split_on(t2, TOKEN_SEP);
        assert(parts2 =~~= seq![p0, p1, q2]);
        assert(q2[j] != p2[j]);
        assert(q2 != p2);
        assert(p2 == b64url_encode_of(hmac_sha256_of(key, p0 + seq![TOKEN_SEP] + p1)));
    } else {
        let q2a = p2.subrange(0, j);
        let q2b = p2.subrange(j + 1, p2.len() as int);
        assert(sep_free(q2a, TOKEN_SEP));
        assert(sep_free(q2b, TOKEN_SEP));
        assert(t2 =~= p0 + seq![TOKEN_SEP] + (p1 + seq![TOKEN_SEP] + (q2a + seq![TOKEN_SEP]
            + q2b)));
        lemma_split_on_append(p0, p1 + seq![TOKEN_SEP] + (q2a + seq![TOKEN_SEP] + q2b), TOKEN_SEP);
        lemma_split_on_append(p1, q2a + seq![TOKEN_SEP] + q2b, TOKEN_SEP);
        lemma_split_on_append(q2a, q2b, TOKEN_SEP);
        lemma_split_on_sep_free(q2b, TOKEN_SEP);
        let parts2 = split_on(t2, TOKEN_SEP);
        assert(parts2 =~~= seq![p0, p1, q2a, q2b]);
        assert(parts2.len() == 4);
    }
}

/// Cuts a token into its three dot-joined segments, or reports that it does
/// not have exactly three.
fn split_token(tb: &[u8]) -> (r: Option<(Vec<u8>, Vec<u8>, Vec<u8>)>)
    ensures
        match r {
            Some((a, b, c)) => split_on(tb@, TOKEN_SEP) == seq![a@, b@, c@],
            None => split_on(tb@, TOKEN_SEP).len() != 3,
        },
{
    let n = tb.len();
    let mut i: usize = 0;
    let mut cnt: usize = 0;
    let mut d0: usize = 0;
    let mut d1: usize = 0;
    while i < n
        invariant
            n == tb@.len(),
            0 <= i <= n,
            cnt == crate::bytes::count_sep(tb@.subrange(0, i as int), TOKEN_SEP),
            cnt == 0 ==> sep_free(tb@.subrange(0, i as int), TOKEN_SEP),
            cnt >= 1 ==> d0 < i && tb@[d0 as int] == TOKEN_SEP && sep_free(
                tb@.subrange(0, d0 as int),
                TOKEN_SEP,
            ),
            cnt == 1 ==> sep_free(tb@.subrange(d0 + 1, i as int), TOKEN_SEP),
            cnt >= 2 ==> d0 < d1 < i && tb@[d1 as int] == TOKEN_SEP && sep_free(
                tb@.subrange(d0 + 1, d1 as int),
                TOKEN_SEP,
            ),
            cnt == 2 ==> sep_free(tb@.subrange(d1 + 1, i as int), TOKEN_SEP),
        decreases n - i,
    {
        proof {
            assert(tb@.subrange(0, i + 1) =~= tb@.subrange(0, i as int).push(tb@[i as int]));
            crate::bytes::lemma_count_sep_push(tb@.subrange(0, i as int), tb@[i as int], TOKEN_SEP);
        }
        if tb[i] == TOKEN_SEP {
            if cnt == 0 {
                d0 = i;
            } else if cnt == 1 {
                d1 = i;
            }
            if cnt >= 3 {
                proof {
                    assert(tb@.subrange(0, n as int) =~= tb@);
                    lemma_count_sep_mono(tb@, i + 1, TOKEN_SEP);
                    lemma_split_on_count(tb@, TOKEN_SEP);
                }
                return None;
            }
            cnt = cnt + 1;
        } else {
            proof {
                if cnt == 1 {
                    assert(tb@.subrange(d0 + 1, i + 1) =~= tb@.subrange(d0 + 1, i as int).push(
                        tb@[i as int],
                    ));
                }
                if cnt == 2 {
                    assert(tb@.subrange(d1 + 1, i + 1) =~= tb@.subrange(d1 + 1, i as int).push(
                        tb@[i as int],
                    ));
                }
                if cnt == 0 {
                    assert(tb@.subrange(0, i + 1) =~= tb@.subrange(0, i as int).push(
                        tb@[i as int],
                    ));
                }
            }
        }
        i = i + 1;
    }
    proof {
        assert(tb@.subrange(0, n as int) =~= tb@);
        lemma_split_on_count(tb@, TOKEN_SEP);
    }
    if cnt != 2 {
        return None;
    }
    let a = slice_to_vec(slice_subrange(tb, 0, d0));
    let b = slice_to_vec(slice_subrange(tb, d0 + 1, d1));
    let c = slice_to_vec(slice_subrange(tb, d1 + 1, n));
    proof {
        assert(tb@ =~= a@ + seq![TOKEN_SEP] + (b@ + seq![TOKEN_SEP] + c@));
        lemma_split_on_append(a@, b@ + seq![TOKEN_SEP] + c@, TOKEN_SEP);
        lemma_split_on_append(b@, c@, TOKEN_SEP);
        lemma_split_on_sep_free(c@, TOKEN_SEP);
        assert(split_on(tb@, TOKEN_SEP) =~~= seq![a@, b@, c@]);
    }
    Some((a, b, c))
}

/// Decodes a bearer token against the process signing key and builds the
/// session it denotes. Any decode, signature or payload failure is a
/// credential failure; nothing is memoized here.
pub fn get_session_from_jwt_token(token: &str, key: &[u8]) -> (r: Result<SessionModel, ErrorModel>)
    ensures
        match r {
            Ok(s) => s.wf() && session_of(token.spec_bytes(), key@) == Some(s@),
            Err(e) => e.error is InvalidCredentials && session_of(token.spec_bytes(), key@)
                is None,
        },
{
    let tb = token.as_bytes();
    let (seg0, seg1, seg2) = match split_token(tb) {
        Some(t) => t,
        None => return Err(ErrorModelKind::InvalidCredentials.model()),
    };
    let header = match b64url_decode(seg0.as_slice()) {
        Some(h) => h,
        None => return Err(ErrorModelKind::InvalidCredentials.model()),
    };
    let alg_ok = match json_str_field(header.as_slice(), "alg") {
        Some(Ok(v)) => bytes_eq(v.as_slice(), "HS256".as_bytes()),
        _ => false,
    };
    if !alg_ok {
        return Err(ErrorModelKind::InvalidCredentials.model());
    }
    let mut signing_input: Vec<u8> = Vec::new();
    push_all(&mut signing_input, seg0.as_slice());
    signing_input.push(TOKEN_SEP);
    push_all(&mut signing_input, seg1.as_slice());
    proof {
        assert(signing_input@ =~= seg0@ + seq![TOKEN_SEP] + seg1@);
    }
    let tag = hmac_sha256(key, signing_input.as_slice());
    let expected = b64url_encode(tag.as_slice());
    if !bytes_eq(seg2.as_slice(), expected.as_slice()) {
        return Err(ErrorModelKind::InvalidCredentials.model());
    }
    let payload = match b64url_decode(seg1.as_slice()) {
        Some(p) => p,
        None => return Err(ErrorModelKind::InvalidCredentials.model()),
    };
    let sub = match json_str_field(payload.as_slice(), "sub") {
        Some(Ok(v)) => v,
        _ => return Err(ErrorModelKind::InvalidCredentials.model()),
    };
    let id_bytes = match uuid_parse(sub.as_slice()) {
        Some(b) => b,
        None => return Err(ErrorModelKind::InvalidCredentials.model()),
    };
    let device_public_key = match json_str_field(payload.as_slice(), "device_public_key") {
        None => None,
        Some(Ok(v)) => Some(v),
        Some(Err(())) => return Err(ErrorModelKind::InvalidCredentials.model()),
    };
    SessionModel::new(Id::new(id_bytes), device_public_key)
}

/// The space between method and path in the signed request string.
pub const METHOD_SEP: u8 = 32;

/// The semicolon between path and body in the signed request string.
pub const BODY_SEP: u8 = 59;

/// The exact byte string a request signature covers: the UTF-8 of
/// `"{METHOD} {PATH};{base64(body)}"`. No nonce or timestamp is included,
/// so this binds method, path and body but does not by itself prevent
/// replay of an identical request.
pub open spec fn canonical_message(method: Seq<u8>, path: Seq<u8>, body: Seq<u8>) -> Seq<u8> {
    method + seq![METHOD_SEP] + path + seq![BODY_SEP] + b64_encode_of(body)
}

impl SessionModel {
    /// Checks that a request was signed by the key paired with this
    /// session's enrolled device key. Success is a no-op when no device key
    /// is enrolled: request signing is opt-in per device. Otherwise the
    /// base64 signature header must verify over exactly this method, path
    /// and body.
    pub fn verify_request(
        &self,
        method: &str,
        path: &str,
        body: &[u8],
        signature_header: Option<&str>,
    ) -> (r: Result<(), ErrorModel>)
        requires
            self.wf(),
        ensures
            match r {
                Ok(()) => match self.public_key {
                    None => true,
                    Some(k) => signature_header matches Some(h) && (
                    match b64_decode_of(h.spec_bytes()) {
                        Some(sig) => p384_sig_ok(
                            k@,
                            canonical_message(method.spec_bytes(), path.spec_bytes(), body@),
                            sig,
                        ),
                        None => false,
                    }),
                },
                Err(e) => self.public_key matches Some(k) && (match signature_header {
                    None => e.error is MissingSignature,
                    Some(h) => e.error is InvalidSignature && (match b64_decode_of(
                        h.spec_bytes(),
                    ) {
                        Some(sig) => !p384_sig_ok(
                            k@,
                            canonical_message(method.spec_bytes(), path.spec_bytes(), body@),
                            sig,
                        ),
                        None => true,
                    }),
                }),
            },
    {
        let pk = match &self.public_key {
            None => return Ok(()),
            Some(pk) => pk,
        };
        let raw_signature = match signature_header {
            None => return Err(ErrorModelKind::MissingSignature.model()),
            Some(h) => h,
        };
        let decoded_signature = match b64_decode(raw_signature.as_bytes()) {
            None => return Err(ErrorModelKind::InvalidSignature.model()),
            Some(s) => s,
        };
        let encoded_body = b64_encode(body);
        let mut data: Vec<u8> = Vec::new();
        push_all(&mut data, method.as_bytes());
        data.push(METHOD_SEP);
        push_all(&mut data, path.as_bytes());
        data.push(BODY_SEP);
        push_all(&mut data, encoded_body.as_slice());
        proof {
            assert(data@ =~= canonical_message(method.spec_bytes(), path.spec_bytes(), body@));
        }
        if p384_verify(pk.as_slice(), data.as_slice(), decoded_signature.as_slice()) {
            Ok(())
        } else {
            Err(ErrorModelKind::InvalidSignature.model())
        }
    }
}

/// Derives sessions from bearer tokens against one process-wide signing
/// key, memoizing each successful resolution by the exact token string so
/// repeated calls skip verification.
pub struct SessionStore {
    key: Vec<u8>,
    cache: MemoCache<SessionModel>,
}

impl SessionStore {
    /// The signing key sessions are verified against.
    pub closed spec fn spec_key(self) -> Seq<u8> {
        self.key@
    }

    /// The sessions memoized so far, by the exact token bytes they were
    /// resolved from.
    pub closed spec fn contents(self) -> Map<Seq<u8>, SessionModel> {
        self.cache.contents()
    }

    /// Every memoized session is exactly what verifying its token yields.
    pub closed spec fn wf(self) -> bool {
        &&& self.cache.wf()
        &&& forall|t: Seq<u8>| #[trigger]
            self.cache.contents().contains_key(t) ==> self.cache.contents()[t].wf() && session_of(
                t,
                self.key@,
            ) == Some(self.cache.contents()[t]@)
    }

    pub fn new(key: Vec<u8>) -> (r: Self)
        ensures
            r.wf(),
            r.spec_key() == key@,
            r.contents() == Map::<Seq<u8>, SessionModel>::empty(),
    {
        SessionStore { key, cache: MemoCache::new() }
    }

    /// Resolves a bearer token to its session: answered from the cache when
    /// memoized, else verified afresh and memoized on success, so that the
    /// token's resolution stands in the contents afterwards. The token is
    /// required to be present; a caller with no credential at all must not
    /// call this but report missing credentials itself.
    pub fn resolve(&mut self, token: &str) -> (r: Result<&SessionModel, ErrorModel>)
        requires
            old(self).wf(),
        ensures
            final(self).wf(),
            final(self).spec_key() == old(self).spec_key(),
            match r {
                Ok(s) => {
                    &&& s.wf()
                    &&& session_of(token.spec_bytes(), old(self).spec_key()) == Some(s@)
                    &&& final(self).contents() == old(self).contents().insert(
                        token.spec_bytes(),
                        *s,
                    )
                },
                Err(e) => {
                    &&& e.error is InvalidCredentials
                    &&& session_of(token.spec_bytes(), old(self).spec_key()) is None
                    &&& final(self).contents() == old(self).contents()
                },
            },
    {
        let key_ref = &self.key;
        let loader = || -> (lr: Result<SessionModel, ErrorModel>)
            ensures
                match lr {
                    Ok(s) => s.wf() && session_of(token.spec_bytes(), key_ref@) == Some(s@),
                    Err(e) => e.error is InvalidCredentials && session_of(
                        token.spec_bytes(),
                        key_ref@,
                    ) is None,
                },
            { get_session_from_jwt_token(token, key_ref.as_slice()) };
        let r = self.cache.get_or_load(token.as_bytes(), loader);
        proof {
            match r {
                Ok(s) => if old(self).contents().contains_key(token.spec_bytes()) {
                    assert(old(self).contents().insert(token.spec_bytes(), *s) =~= old(
                        self,
                    ).contents());
                },
                Err(_) => {},
            }
        }
        r
    }

    /// Drops a memoized session, so the store no longer answers for this
    /// token and the next resolution verifies afresh: how a stale entry is
    /// invalidated before re-population.
    pub fn invalidate(&mut self, token: &str)
        requires
            old(self).wf(),
        ensures
            final(self).wf(),
            final(self).spec_key() == old(self).spec_key(),
            final(self).contents() == old(self).contents().remove(token.spec_bytes()),
    {
        let _ = self.cache.remove(token.as_bytes());
    }
}

/// A prefix has no more separators than the whole.
proof fn lemma_count_sep_mono(s: Seq<u8>, i: int, sep: u8)
    requires
        0 <= i <= s.len(),
    ensures
        crate::bytes::count_sep(s, sep) >= crate::bytes::count_sep(s.subrange(0, i), sep),
    decreases s.len(),
{
    if s.len() != 0 {
        if i == 0 {
        } else {
            assert(s.subrange(0, i).drop_first() =~= s.drop_first().subrange(0, i - 1));
            lemma_count_sep_mono(s.drop_first(), i - 1, sep);
        }
    }
}

} // verus!

