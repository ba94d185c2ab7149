//! Passkey enrollment records and one-time sign-in challenges. A passkey
//! maps an opaque identifier to its enrolled COSE public key and owning
//! identity, loaded from a backing store on first access and then memoized.
//! A challenge is 32 random bytes under a random 16-byte identifier, meant
//! to be consumed by exactly one verification attempt, successful or not.

use vstd::prelude::*;

use crate::bytes::push_all;
use crate::cache::MemoCache;
use crate::encoding::{new_v4_bytes, random_bytes_32};
use crate::error::{ErrorModel, ErrorModelKind, ResourceKind};
use crate::id::{Id, PasskeyMarker, UserMarker};
use vstd::slice::slice_to_vec;
use vstd::string::StringSliceAdditionalSpecFns;

verus! {

/// An immutable passkey enrollment record: the COSE-encoded public key and
/// the identity that owns it.
#[derive(Debug)]
pub struct PasskeyModel {
    pub public_key: Vec<u8>,
    pub user_id: Id<UserMarker>,
}

impl PasskeyModel {
    pub open spec fn wf(self) -> bool {
        self.user_id.wf()
    }
}

/// Resolves passkey identifiers to their enrollment records, memoizing each
/// record by identifier. The backing-store fetch itself happens outside;
/// this store decides what a hit, a fresh record and a missing record mean.
pub struct PasskeyStore {
    cache: MemoCache<PasskeyModel>,
}

impl PasskeyStore {
    /// The records memoized so far, by identifier bytes.
    pub closed spec fn contents(self) -> Map<Seq<u8>, PasskeyModel> {
        self.cache.contents()
    }

    pub closed spec fn wf(self) -> bool {
        &&& self.cache.wf()
        &&& forall|k: Seq<u8>| #[trigger]
            self.cache.contents().contains_key(k) ==> self.cache.contents()[k].wf()
    }

    pub fn new() -> (r: Self)
        ensures
            r.wf(),
            r.contents() == Map::<Seq<u8>, PasskeyModel>::empty(),
    {
        PasskeyStore { cache: MemoCache::new() }
    }

    /// The memoized record for an identifier, when one is present; a miss
    /// means the backing store must be asked and the answer handed to
    /// `resolve_loaded`.
    pub fn resolve_cached(&self, passkey_id: &str) -> (r: Option<&PasskeyModel>)
        requires
            self.wf(),
        ensures
            match r {
                Some(m) => self.contents().contains_key(passkey_id.spec_bytes()) && *m
                    == self.contents()[passkey_id.spec_bytes()] && m.wf(),
                None => !self.contents().contains_key(passkey_id.spec_bytes()),
            },
    {
        self.cache.get(passkey_id.as_bytes())
    }

    /// Folds a backing-store answer in: a record is memoized and returned,
    /// an absent record is the caller's not-found error. When a concurrent
    /// resolution already memoized the identifier, the stored record wins
    /// and the fetched one is discarded.
    pub fn resolve_loaded(&mut self, passkey_id: &str, fetched: Option<PasskeyModel>) -> (r:
        Result<&PasskeyModel, ErrorModel>)
        requires
            old(self).wf(),
            fetched matches Some(m) ==> m.wf(),
        ensures
            final(self).wf(),
            match r {
                Ok(m) => {
                    &&& m.wf()
                    &&& final(self).contents().contains_key(passkey_id.spec_bytes())
                    &&& *m == final(self).contents()[passkey_id.spec_bytes()]
                    &&& if old(self).contents().contains_key(passkey_id.spec_bytes()) {
                        final(self).contents() == old(self).contents()
                    } else {
                        fetched matches Some(f) && final(self).contents() == old(
                            self,
                        ).contents().insert(passkey_id.spec_bytes(), f)
                    }
                },
                Err(e) => {
                    &&& fetched is None
                    &&& !old(self).contents().contains_key(passkey_id.spec_bytes())
                    &&& final(self).contents() == old(self).contents()
                    &&& e.error matches ErrorModelKind::NotFound { .. }
                },
            },
    {
        if self.cache.get(passkey_id.as_bytes()).is_some() {
            return Ok(self.cache.get(passkey_id.as_bytes()).unwrap());
        }
        match fetched {
            Some(m) => {
                self.cache.insert(slice_to_vec(passkey_id.as_bytes()), m);
                Ok(self.cache.get(passkey_id.as_bytes()).unwrap())
            },
            None => Err(
                ErrorModelKind::not_found(ResourceKind::User, Some(passkey_id.to_owned())),
            ),
        }
    }
}

/// A one-time sign-in challenge: 32 random bytes under a random 16-byte
/// identifier.
pub struct PasskeyChallengeModel {
    pub id: Id<PasskeyMarker>,
    pub challenge: Vec<u8>,
}

impl PasskeyChallengeModel {
    pub open spec fn wf(self) -> bool {
        self.id.wf() && self.challenge@.len() == 32
    }
}

impl Default for PasskeyChallengeModel {
    /// A fresh challenge under a fresh identifier, both random.
    fn default() -> (r: Self)
        ensures
            r.wf(),
    {
        PasskeyChallengeModel { id: Id::random(), challenge: random_bytes_32() }
    }
}

/// The binary payload a challenge request is answered with: exactly 48
/// bytes, the 16 identifier bytes followed by the 32 challenge bytes.
pub fn challenge_payload(m: &PasskeyChallengeModel) -> (r: Vec<u8>)
    requires
        m.wf(),
    ensures
        r@ == m.id.value@ + m.challenge@,
        r@.len() == 48,
{
    let mut payload: Vec<u8> = Vec::new();
    push_all(&mut payload, m.id.value.as_slice());
    push_all(&mut payload, m.challenge.as_slice());
    payload
}

/// Issues and stores one-time challenges keyed by their identifier. A
/// challenge must be consumed by the one verification attempt it is used
/// for - successful or not - so that an assertion cannot be replayed
/// against a still-stored challenge.
pub struct PasskeyChallengeRegistry {
    cache: MemoCache<PasskeyChallengeModel>,
}

impl PasskeyChallengeRegistry {
    /// The stored challenges, by identifier bytes.
    pub closed spec fn contents(self) -> Map<Seq<u8>, PasskeyChallengeModel> {
        self.cache.contents()
    }

    pub closed spec fn wf(self) -> bool {
        &&& self.cache.wf()
        &&& forall|k: Seq<u8>| #[trigger]
            self.cache.contents().contains_key(k) ==> self.cache.contents()[k].wf()
                && self.cache.contents()[k].id.value@ == k
    }

    pub fn new() -> (r: Self)
        ensures
            r.wf(),
            r.contents() == Map::<Seq<u8>, PasskeyChallengeModel>::empty(),
    {
        PasskeyChallengeRegistry { cache: MemoCache::new() }
    }

    /// Generates a fresh random challenge and identifier, stores the pair,
    /// and returns it: exactly what is stored is what the caller is handed.
    pub fn issue(&mut self) -> (r: PasskeyChallengeModel)
        requires
            old(self).wf(),
        ensures
            final(self).wf(),
            r.wf(),
            final(self).contents().contains_key(r.id.value@),
            final(self).contents()[r.id.value@].id.value@ == r.id.value@,
            final(self).contents()[r.id.value@].challenge@ == r.challenge@,
            final(self).contents().remove(r.id.value@) == old(self).contents().remove(
                r.id.value@,
            ),
    {
        let id_bytes = new_v4_bytes();
        let challenge = random_bytes_32();
        let stored = PasskeyChallengeModel {
            id: Id::new(slice_to_vec(id_bytes.as_slice())),
            challenge: slice_to_vec(challenge.as_slice()),
        };
        let issued = PasskeyChallengeModel { id: Id::new(id_bytes), challenge };
        let _ = self.cache.remove(issued.id.value.as_slice());
        self.cache.insert(slice_to_vec(issued.id.value.as_slice()), stored);
        proof {
            assert(self.contents().remove(issued.id.value@) =~= old(self).contents().remove(
                issued.id.value@,
            ));
        }
        issued
    }

    /// The stored challenge under an identifier, without consuming it.
    pub fn lookup(&self, id: &[u8]) -> (r: Option<&PasskeyChallengeModel>)
        requires
            self.wf(),
        ensures
            match r {
                Some(m) => self.contents().contains_key(id@) && *m == self.contents()[id@]
                    && m.wf() && m.id.value@ == id@,
                None => !self.contents().contains_key(id@),
            },
    {
        self.cache.get(id)
    }

    /// Consumes the stored challenge under an identifier: the single-use
    /// step every verification attempt must take, so a challenge can never
    /// be played twice.
    pub fn take(&mut self, id: &[u8]) -> (r: Option<PasskeyChallengeModel>)
        requires
            old(self).wf(),
        ensures
            final(self).wf(),
            final(self).contents() == old(self).contents().remove(id@),
            match r {
                Some(m) => old(self).contents().contains_key(id@) && m == old(
                    self,
                ).contents()[id@] && m.wf(),
                None => !old(self).contents().contains_key(id@),
            },
    {
        self.cache.remove(id)
    }
}

} // verus!
