//! Typed identifiers. An identifier is the 16 bytes of a UUID, tagged with a
//! marker type so that, say, a user id and a passkey id cannot be mixed up.

use vstd::prelude::*;

use core::marker::PhantomData;

use crate::bytes::bytes_eq;
use crate::encoding::new_v4_bytes;

verus! {

/// Marker for identifiers of users.
#[derive(Debug)]
pub struct UserMarker;

/// Marker for identifiers of passkey challenges.
#[derive(Debug)]
pub struct PasskeyMarker;

/// Marker for identifiers of third-party connections.
#[derive(Debug)]
pub struct ConnectionMarker;

/// Marker for identifiers of visual-scripting documents.
#[derive(Debug)]
pub struct DocumentMarker;

/// A 16-byte identifier tagged with a marker type.
#[derive(Debug)]
pub struct Id<T> {
    pub value: Vec<u8>,
    pub phantom: PhantomData<T>,
}

impl<T> Id<T> {
    /// An identifier holds exactly the 16 bytes of a UUID.
    pub open spec fn wf(self) -> bool {
        self.value@.len() == 16
    }

    pub fn new(value: Vec<u8>) -> (r: Self)
        requires
            value@.len() == 16,
        ensures
            r.wf(),
            r.value@ == value@,
    {
        Id { value, phantom: PhantomData }
    }

    /// A fresh random identifier.
    pub fn random() -> (r: Self)
        ensures
            r.wf(),
    {
        Id { value: new_v4_bytes(), phantom: PhantomData }
    }

    pub fn eq_id(&self, other: &Self) -> (r: bool)
        ensures
            r == (self.value@ == other.value@),
    {
        bytes_eq(self.value.as_slice(), other.value.as_slice())
    }
}

impl<T> Default for Id<T> {
    /// A fresh random identifier, as minting one for a new record.
    fn default() -> (r: Self)
        ensures
            r.wf(),
    {
        Id::random()
    }
}

} // verus!
