//! Challenge/response public-key assertion verification: the passkey-style
//! sign-in ceremony. An assertion carries raw authenticator-data bytes, raw
//! client-data JSON and a raw signature; it is accepted only when the client
//! data names the right ceremony and the issued challenge, the user-present
//! and user-verified flags are set, the relying-party hash matches, and the
//! signature verifies under the enrolled COSE key. The verifier is a single
//! pass/fail gate: every failure is the same credential rejection.

use vstd::prelude::*;

use crate::bytes::{bytes_eq, push_all};
use crate::crypto::{cose_verify, cose_verify_of, sha256, sha256_of};
use crate::encoding::{b64url_decode, b64url_decode_of, json_str_field, json_str_field_of};
use crate::error::{ErrorModel, ErrorModelKind};
use vstd::slice::{slice_subrange, slice_to_vec};
use vstd::string::StringSliceAdditionalSpecFns;

verus! {

/// The sign-in ceremony. Assertions verified here carry the extensions of
/// an authentication, not of a registration.
pub struct Authentication;

/// A raw assertion as submitted by a client: authenticator data, client
/// data JSON and signature, each as the exact bytes the authenticator
/// produced, with the optional user handle.
pub struct AssertionResponse {
    pub authenticator_data: Vec<u8>,
    pub client_data_json: Vec<u8>,
    pub signature: Vec<u8>,
    pub user_handle: Option<Vec<u8>>,
}

/// Whether the user-present bit (bit 0) of the flags byte is set.
pub open spec fn flag_user_present(flags: u8) -> bool {
    flags & 0x01 != 0
}

/// Whether the user-verified bit (bit 2) of the flags byte is set.
pub open spec fn flag_user_verified(flags: u8) -> bool {
    flags & 0x04 != 0
}

/// Whether the attested-credential-data bit (bit 6) of the flags byte is
/// set. Attested credential data belongs to registration; an assertion
/// carrying it is rejected.
pub open spec fn flag_attested_credential_data(flags: u8) -> bool {
    flags & 0x40 != 0
}

/// Well-formed authenticator data for an assertion: at least the fixed
/// 37-byte prefix of relying-party hash, flags and counter, and no attested
/// credential data.
pub open spec fn auth_data_wf(d: Seq<u8>) -> bool {
    d.len() >= 37 && !flag_attested_credential_data(d[32])
}

/// The big-endian 32-bit value of four bytes.
pub open spec fn be_u32(b0: u8, b1: u8, b2: u8, b3: u8) -> u32 {
    (b0 * 0x1000000 + b1 * 0x10000 + b2 * 0x100 + b3) as u32
}

/// Authenticator data parsed into its structured record: the relying-party
/// hash, the flag bits the ceremony reads, the signature counter, and any
/// trailing extension bytes.
pub struct AuthenticatorData {
    pub rp_id_hash: Vec<u8>,
    pub user_present: bool,
    pub user_verified: bool,
    pub counter: u32,
    pub extension_data: Vec<u8>,
}

/// Parses authenticator-data bytes: the first 32 bytes are the
/// relying-party hash, then one flags byte, then a big-endian counter; what
/// follows is kept as raw extension data.
pub fn parse_authenticator_data(d: &[u8]) -> (r: Option<AuthenticatorData>)
    ensures
        match r {
            Some(ad) => {
                &&& auth_data_wf(d@)
                &&& ad.rp_id_hash@ == d@.subrange(0, 32)
                &&& ad.user_present == flag_user_present(d@[32])
                &&& ad.user_verified == flag_user_verified(d@[32])
                &&& ad.counter == be_u32(d@[33], d@[34], d@[35], d@[36])
                &&& ad.extension_data@ == d@.subrange(37, d@.len() as int)
            },
            None => !auth_data_wf(d@),
        },
{
    if d.len() < 37 {
        return None;
    }
    let flags = *vstd::slice::slice_index_get(d, 32);
    if flags & 0x40 != 0 {
        return None;
    }
    let rp_id_hash = slice_to_vec(slice_subrange(d, 0, 32));
    let b33 = *vstd::slice::slice_index_get(d, 33);
    let b34 = *vstd::slice::slice_index_get(d, 34);
    let b35 = *vstd::slice::slice_index_get(d, 35);
    let b36 = *vstd::slice::slice_index_get(d, 36);
    let counter: u32 = (b33 as u32) * 0x1000000 + (b34 as u32) * 0x10000 + (b35 as u32) * 0x100 + (
    b36 as u32);
    let extension_data = slice_to_vec(slice_subrange(d, 37, d.len()));
    Some(
        AuthenticatorData {
            rp_id_hash,
            user_present: flags & 0x01 != 0,
            user_verified: flags & 0x04 != 0,
            counter,
            extension_data,
        },
    )
}

/// When an assertion is accepted: well-formed authenticator data, client
/// data naming the sign-in ceremony and decoding to exactly the expected
/// challenge, user-present and user-verified flags set, the relying-party
/// hash in place, and the signature verifying under the enrolled key over
/// the authenticator data joined with the client data's digest.
pub open spec fn assertion_accepted(
    rp_id_hash: Seq<u8>,
    challenge: Seq<u8>,
    cose_key: Seq<u8>,
    auth_data: Seq<u8>,
    client_data: Seq<u8>,
    signature: Seq<u8>,
) -> bool {
    &&& auth_data_wf(auth_data)
    &&& json_str_field_of(client_data, "type"@) == Some(
        Ok::<Seq<u8>, ()>("webauthn.get".spec_bytes()),
    )
    &&& (json_str_field_of(client_data, "challenge"@) matches Some(Ok(c)) && b64url_decode_of(c)
        == Some(challenge))
    &&& flag_user_present(auth_data[32])
    &&& flag_user_verified(auth_data[32])
    &&& auth_data.subrange(0, 32) == rp_id_hash
    &&& cose_verify_of(cose_key, signature, auth_data + sha256_of(client_data))
}

/// Challenge mismatch is fatal: an assertion whose client data carries any
/// challenge other than the issued one - a single differing byte included -
/// is not accepted.
pub proof fn lemma_challenge_mismatch_rejected(
    rp_id_hash: Seq<u8>,
    challenge: Seq<u8>,
    cose_key: Seq<u8>,
    auth_data: Seq<u8>,
    client_data: Seq<u8>,
    signature: Seq<u8>,
    carried: Seq<u8>,
)
    requires
        json_str_field_of(client_data, "challenge"@) matches Some(Ok(f)) && b64url_decode_of(f)
            == Some(carried),
        carried != challenge,
    ensures
        !assertion_accepted(rp_id_hash, challenge, cose_key, auth_data, client_data, signature),
{
}

/// Cleared flags are fatal: an assertion is accepted only with both the
/// user-present and the user-verified bit set.
pub proof fn lemma_cleared_flags_rejected(
    rp_id_hash: Seq<u8>,
    challenge: Seq<u8>,
    cose_key: Seq<u8>,
    auth_data: Seq<u8>,
    client_data: Seq<u8>,
    signature: Seq<u8>,
)
    requires
        auth_data.len() >= 37,
        !flag_user_present(auth_data[32]) || !flag_user_verified(auth_data[32]),
    ensures
        !assertion_accepted(rp_id_hash, challenge, cose_key, auth_data, client_data, signature),
{
}

/// Verifies assertions against one fixed relying-party identifier, whose
/// SHA-256 hash every accepted assertion must carry.
pub struct AssertionVerifier {
    rp_id_hash: Vec<u8>,
}

impl AssertionVerifier {
    /// The relying-party hash assertions are checked against.
    pub closed spec fn spec_rp_id_hash(self) -> Seq<u8> {
        self.rp_id_hash@
    }

    /// A verifier for the given relying-party identifier, a configuration
    /// constant rather than user input.
    pub fn new(rp_id: &str) -> (r: Self)
        ensures
            r.spec_rp_id_hash() == sha256_of(rp_id.spec_bytes()),
    {
        AssertionVerifier { rp_id_hash: sha256(rp_id.as_bytes()) }
    }

    /// The single pass/fail gate over an assertion: accepted exactly when
    /// every ceremony step holds, and any failure is the same credential
    /// rejection, signalling nothing of which step failed.
    pub fn verify_sign_in(
        &self,
        challenge: &[u8],
        public_key: &[u8],
        response: &AssertionResponse,
    ) -> (r: Result<(), ErrorModel>)
        ensures
            r is Ok <==> assertion_accepted(
                self.spec_rp_id_hash(),
                challenge@,
                public_key@,
                response.authenticator_data@,
                response.client_data_json@,
                response.signature@,
            ),
            r matches Err(e) ==> e.error is InvalidCredentials,
    {
        let auth_data = match parse_authenticator_data(response.authenticator_data.as_slice()) {
            Some(ad) => ad,
            None => return Err(ErrorModelKind::InvalidCredentials.model()),
        };
        let type_ok = match json_str_field(response.client_data_json.as_slice(), "type") {
            Some(Ok(v)) => bytes_eq(v.as_slice(), "webauthn.get".as_bytes()),
            _ => false,
        };
        if !type_ok {
            return Err(ErrorModelKind::InvalidCredentials.model());
        }
        let challenge_ok = match json_str_field(response.client_data_json.as_slice(), "challenge") {
            Some(Ok(v)) => match b64url_decode(v.as_slice()) {
                Some(c) => bytes_eq(c.as_slice(), challenge),
                None => false,
            },
            _ => false,
        };
        if !challenge_ok {
            return Err(ErrorModelKind::InvalidCredentials.model());
        }
        if !auth_data.user_present {
            return Err(ErrorModelKind::InvalidCredentials.model());
        }
        if !auth_data.user_verified {
            return Err(ErrorModelKind::InvalidCredentials.model());
        }
        if !bytes_eq(auth_data.rp_id_hash.as_slice(), self.rp_id_hash.as_slice()) {
            return Err(ErrorModelKind::InvalidCredentials.model());
        }
        let client_data_hash = sha256(response.client_data_json.as_slice());
        let mut verification_data: Vec<u8> = Vec::new();
        push_all(&mut verification_data, response.authenticator_data.as_slice());
        push_all(&mut verification_data, client_data_hash.as_slice());
        if cose_verify(
            public_key,
            response.signature.as_slice(),
            verification_data.as_slice(),
        ) {
            Ok(())
        } else {
            Err(ErrorModelKind::InvalidCredentials.model())
        }
    }
}

} // verus!
