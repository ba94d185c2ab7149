//! Cafe data shapes: the kind of a cafe and the orders it can receive.

use vstd::prelude::*;

use crate::bytes::bytes_eq;
use vstd::string::StringSliceAdditionalSpecFns;

verus! {

/// What kind of cafe a record denotes; anything unrecognized is `Unknown`.
pub enum CafeKind {
    Unknown,
    Profile,
}

/// The kind `from` yields for a given tag.
pub open spec fn spec_cafe_kind_from(value: Seq<u8>) -> CafeKind {
    if value == "profile".spec_bytes() {
        CafeKind::Profile
    } else {
        CafeKind::Unknown
    }
}

impl CafeKind {
    /// Maps a stored tag to its kind: `"profile"` and nothing else is
    /// recognized.
    pub fn from(value: &str) -> (r: Self)
        ensures
            r == spec_cafe_kind_from(value.spec_bytes()),
    {
        if bytes_eq(value.as_bytes(), "profile".as_bytes()) {
            CafeKind::Profile
        } else {
            CafeKind::Unknown
        }
    }
}

/// An order placed with a cafe.
pub enum CafeOrderKind {
    Message(CafeOrderMessage),
}

/// The message an order carries.
pub enum CafeOrderMessage {
    Basic { content: String },
}

} // verus!
