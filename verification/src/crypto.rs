//! Trusted boundary to the cryptographic crates: SHA-256, HMAC-SHA256,
//! ECDSA over P-384, and COSE-key signature verification. Each digest or
//! verdict is named as a function of its inputs; no contract here promises
//! what the name is on given values, so the logic above is verified for
//! every outcome.

use vstd::prelude::*;

use sha2::Digest;

verus! {

/// What SHA-256 yields for a byte string.
pub uninterp spec fn sha256_of(data: Seq<u8>) -> Seq<u8>;

/// Relies on sha2's `Sha256::digest`: the digest is a function of the data
/// alone, and is 32 bytes.
#[verifier::external_body]
pub fn sha256(data: &[u8]) -> (r: Vec<u8>)
    ensures
        r@ == sha256_of(data@),
        r@.len() == 32,
{
    sha2::Sha256::digest(data).to_vec()
}

/// What HMAC-SHA256 yields for a key and a message.
pub uninterp spec fn hmac_sha256_of(key: Seq<u8>, msg: Seq<u8>) -> Seq<u8>;

/// Relies on hmac's `Hmac::<Sha256>` with sha2: the tag is a function of key
/// and message alone, and is 32 bytes. `new_from_slice` accepts HMAC keys of
/// any length, so it cannot fail here.
#[verifier::external_body]
pub fn hmac_sha256(key: &[u8], msg: &[u8]) -> (r: Vec<u8>)
    ensures
        r@ == hmac_sha256_of(key@, msg@),
        r@.len() == 32,
{
    let mut mac = <hmac::Hmac<sha2::Sha256> as hmac::Mac>::new_from_slice(key).unwrap();
    hmac::Mac::update(&mut mac, msg);
    hmac::Mac::finalize(mac).into_bytes().to_vec()
}

/// Whether a byte string is a structurally valid SEC1-encoded P-384
/// verifying key.
pub uninterp spec fn p384_key_ok(key: Seq<u8>) -> bool;

/// Relies on p384's `VerifyingKey::from_sec1_bytes`: whether a key parses is
/// a function of its bytes alone.
#[verifier::external_body]
pub fn p384_check_key(key: &[u8]) -> (r: bool)
    ensures
        r == p384_key_ok(key@),
{
    p384::ecdsa::VerifyingKey::from_sec1_bytes(key).is_ok()
}

/// Whether a signature verifies over a message under a SEC1-encoded P-384
/// key: false as well when the signature bytes are not a well-formed
/// fixed-format ECDSA signature.
pub uninterp spec fn p384_sig_ok(key: Seq<u8>, msg: Seq<u8>, sig: Seq<u8>) -> bool;

/// Relies on p384's `Signature::from_slice` and `Verifier::verify`: the
/// verdict is a function of key, message and signature alone.
#[verifier::external_body]
pub fn p384_verify(key: &[u8], msg: &[u8], sig: &[u8]) -> (r: bool)
    requires
        p384_key_ok(key@),
    ensures
        r == p384_sig_ok(key@, msg@, sig@),
{
    let vk = match p384::ecdsa::VerifyingKey::from_sec1_bytes(key) {
        Ok(vk) => vk,
        Err(_) => return false,
    };
    let signature = match p384::ecdsa::Signature::from_slice(sig) {
        Ok(s) => s,
        Err(_) => return false,
    };
    p384::ecdsa::signature::Verifier::verify(&vk, msg, &signature).is_ok()
}

/// Whether a signature verifies over a message under a CBOR-encoded COSE
/// key: false as well when the key bytes are not a well-formed COSE key of a
/// supported algorithm.
pub uninterp spec fn cose_verify_of(key: Seq<u8>, sig: Seq<u8>, msg: Seq<u8>) -> bool;

/// Relies on serde_cbor_2's `from_slice` and webauthn-rs-core's
/// `COSEKey::try_from` and `COSEKey::verify_signature`: the verdict is a
/// function of key bytes, signature and message alone.
#[verifier::external_body]
pub fn cose_verify(key: &[u8], sig: &[u8], msg: &[u8]) -> (r: bool)
    ensures
        r == cose_verify_of(key@, sig@, msg@),
{
    let value: serde_cbor_2::Value = match serde_cbor_2::from_slice(key) {
        Ok(v) => v,
        Err(_) => return false,
    };
    let cose_key = match webauthn_rs_core::proto::COSEKey::try_from(&value) {
        Ok(k) => k,
        Err(_) => return false,
    };
    match cose_key.verify_signature(sig, msg) {
        Ok(verified) => verified,
        Err(_) => false,
    }
}

} // verus!
