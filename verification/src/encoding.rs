//! Trusted boundary to the encoding crates: base64 in its two alphabets,
//! JSON string-field extraction, and UUIDs. Each outside call stands behind
//! one wrapper whose contract names its result; the logic above is verified
//! against those names.

use vstd::prelude::*;

use base64::Engine;

verus! {

/// What base64url (no padding) decoding yields for a byte string: `None` on
/// any invalid character, length or non-canonical trailing bits.
pub uninterp spec fn b64url_decode_of(s: Seq<u8>) -> Option<Seq<u8>>;

/// What base64url (no padding) encoding yields for a byte string.
pub uninterp spec fn b64url_encode_of(b: Seq<u8>) -> Seq<u8>;

/// What standard-alphabet, padded base64 decoding yields for a byte string.
pub uninterp spec fn b64_decode_of(s: Seq<u8>) -> Option<Seq<u8>>;

/// What standard-alphabet, padded base64 encoding yields for a byte string.
pub uninterp spec fn b64_encode_of(b: Seq<u8>) -> Seq<u8>;

/// Relies on base64's `URL_SAFE_NO_PAD` engine: decoding is a function of
/// the input alone.
#[verifier::external_body]
pub fn b64url_decode(s: &[u8]) -> (r: Option<Vec<u8>>)
    ensures
        match r {
            Some(b) => b64url_decode_of(s@) == Some(b@),
            None => b64url_decode_of(s@) is None,
        },
{
    base64::engine::general_purpose::URL_SAFE_NO_PAD.decode(s).ok()
}

/// Relies on base64's `URL_SAFE_NO_PAD` engine: encoding is a function of
/// the input alone, its output stays within the URL-safe alphabet - letters,
/// digits, minus and underscore, so never a dot - and decoding with the same
/// engine undoes it.
#[verifier::external_body]
pub fn b64url_encode(b: &[u8]) -> (r: Vec<u8>)
    ensures
        r@ == b64url_encode_of(b@),
        b64url_decode_of(r@) == Some(b@),
        forall|i: int| 0 <= i < r@.len() ==> r@[i] != 46u8,
{
    base64::engine::general_purpose::URL_SAFE_NO_PAD.encode(b).into_bytes()
}

/// Relies on base64's `STANDARD` engine: decoding is a function of the input
/// alone.
#[verifier::external_body]
pub fn b64_decode(s: &[u8]) -> (r: Option<Vec<u8>>)
    ensures
        match r {
            Some(b) => b64_decode_of(s@) == Some(b@),
            None => b64_decode_of(s@) is None,
        },
{
    base64::engine::general_purpose::STANDARD.decode(s).ok()
}

/// Relies on base64's `STANDARD` engine: encoding is a function of the input
/// alone.
#[verifier::external_body]
pub fn b64_encode(b: &[u8]) -> (r: Vec<u8>)
    ensures
        r@ == b64_encode_of(b@),
{
    base64::engine::general_purpose::STANDARD.encode(b).into_bytes()
}

/// What looking a key up in a JSON document yields: `None` when the document
/// is not a JSON object holding the key, or the key's value is null; the
/// value's UTF-8 bytes when it is a string; `Err` when it is any other value.
pub uninterp spec fn json_str_field_of(doc: Seq<u8>, key: Seq<char>) -> Option<
    Result<Seq<u8>, ()>,
>;

/// Relies on serde_json's `from_slice`, `Value::get` and `Value` variants:
/// the field a JSON document holds under a key is a function of the document
/// alone.
#[verifier::external_body]
pub fn json_str_field(doc: &[u8], key: &str) -> (r: Option<Result<Vec<u8>, ()>>)
    ensures
        match r {
            Some(Ok(v)) => json_str_field_of(doc@, key@) == Some(Ok::<Seq<u8>, ()>(v@)),
            Some(Err(())) => json_str_field_of(doc@, key@) == Some(Err::<Seq<u8>, ()>(())),
            None => json_str_field_of(doc@, key@) is None,
        },
{
    let v: serde_json::Value = match serde_json::from_slice(doc) {
        Ok(v) => v,
        Err(_) => return None,
    };
    match v.get(key) {
        None => None,
        Some(serde_json::Value::Null) => None,
        Some(serde_json::Value::String(s)) => Some(Ok(s.clone().into_bytes())),
        Some(_) => Some(Err(())),
    }
}

/// What parsing a UUID string yields: the 16 bytes it denotes, or `None`
/// when the bytes are not a UUID in a textual format.
pub uninterp spec fn uuid_of(s: Seq<u8>) -> Option<Seq<u8>>;

/// Relies on uuid's `Uuid::try_parse`: parsing is a function of the input
/// alone, and a UUID is 16 bytes.
#[verifier::external_body]
pub fn uuid_parse(s: &[u8]) -> (r: Option<Vec<u8>>)
    ensures
        match r {
            Some(b) => uuid_of(s@) == Some(b@) && b@.len() == 16,
            None => uuid_of(s@) is None,
        },
{
    let text = core::str::from_utf8(s).ok()?;
    let parsed = uuid::Uuid::try_parse(text).ok()?;
    Some(parsed.into_bytes().to_vec())
}

/// Relies on uuid's `Uuid::new_v4`: a random UUID is 16 bytes. Nothing more
/// can be promised of a random value.
#[verifier::external_body]
pub fn new_v4_bytes() -> (r: Vec<u8>)
    ensures
        r@.len() == 16,
{
    uuid::Uuid::new_v4().into_bytes().to_vec()
}

/// Relies on rand's `Rng::fill`: 32 fresh random bytes. Nothing more can be
/// promised of random values.
#[verifier::external_body]
pub fn random_bytes_32() -> (r: Vec<u8>)
    ensures
        r@.len() == 32,
{
    let mut buf = [0u8; 32];
    rand::Rng::fill(&mut rand::thread_rng(), &mut buf[..]);
    buf.to_vec()
}

} // verus!
