//! Third-party connection kinds and their wire integers. The mapping to and
//! from the wire integer is written out exhaustively; nothing relies on the
//! enum's memory layout.

use vstd::prelude::*;

verus! {

/// The provider a user connection points at.
pub enum ConnectionKind {
    Discord,
    GitHub,
    Roblox,
    YouTube,
    Patreon,
}

/// The wire integer of each kind, in declaration order.
pub open spec fn spec_connection_discriminant(kind: ConnectionKind) -> u8 {
    match kind {
        ConnectionKind::Discord => 0,
        ConnectionKind::GitHub => 1,
        ConnectionKind::Roblox => 2,
        ConnectionKind::YouTube => 3,
        ConnectionKind::Patreon => 4,
    }
}

impl ConnectionKind {
    /// The wire integer of this kind.
    pub fn discriminant(&self) -> (r: u8)
        ensures
            r == spec_connection_discriminant(*self),
    {
        match self {
            ConnectionKind::Discord => 0,
            ConnectionKind::GitHub => 1,
            ConnectionKind::Roblox => 2,
            ConnectionKind::YouTube => 3,
            ConnectionKind::Patreon => 4,
        }
    }

    /// The kind a stored wire integer denotes, or `None` for any integer no
    /// kind maps to.
    pub fn from_i16(value: i16) -> (r: Option<Self>)
        ensures
            match r {
                Some(k) => spec_connection_discriminant(k) == value,
                None => forall|k: ConnectionKind| spec_connection_discriminant(k) != value,
            },
    {
        match value {
            0i16 => Some(ConnectionKind::Discord),
            1i16 => Some(ConnectionKind::GitHub),
            2i16 => Some(ConnectionKind::Roblox),
            3i16 => Some(ConnectionKind::YouTube),
            4i16 => Some(ConnectionKind::Patreon),
            _ => None,
        }
    }
}

} // verus!
