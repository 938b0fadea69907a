//! Actor classes attributed to state transitions.

use vstd::prelude::*;

verus! {

/// Closed set of actor classes. The numeric encoding given by [`Origin::as_u8`]
/// is part of the protocol: it is the field-element encoding of an origin
/// inside the step circuit and must stay stable.
#[derive(Clone, Copy, Debug, PartialEq, Eq, Hash, Structural)]
pub enum Origin {
    /// Genesis state (initial deployment).
    Genesis,
    /// Normal user transaction.
    User,
    /// Administrative action.
    Admin,
    /// Cross-chain bridge import.
    Bridge,
}

/// The stable numeric encoding of an origin class.
pub open spec fn origin_code(o: Origin) -> u8 {
    match o {
        Origin::Genesis => 0,
        Origin::User => 1,
        Origin::Admin => 2,
        Origin::Bridge => 3,
    }
}

impl Origin {
    /// Get the numeric value of the origin.
    pub fn as_u8(&self) -> (r: u8)
        ensures
            r == origin_code(*self),
    {
        match self {
            Origin::Genesis => 0,
            Origin::User => 1,
            Origin::Admin => 2,
            Origin::Bridge => 3,
        }
    }

    /// Decode a numeric value; `None` exactly on values outside the closed set.
    pub fn from_u8(value: u8) -> (r: Option<Self>)
        ensures
            value <= 3 ==> (r matches Some(o) && origin_code(o) == value),
            value > 3 ==> r is None,
    {
        match value {
            0 => Some(Origin::Genesis),
            1 => Some(Origin::User),
            2 => Some(Origin::Admin),
            3 => Some(Origin::Bridge),
            _ => None,
        }
    }

    /// Get the name of the origin.
    pub fn name(&self) -> (r: &'static str)
        ensures
            *self == Origin::Genesis ==> r@ == "Genesis"@,
            *self == Origin::User ==> r@ == "User"@,
            *self == Origin::Admin ==> r@ == "Admin"@,
            *self == Origin::Bridge ==> r@ == "Bridge"@,
    {
        match self {
            Origin::Genesis => "Genesis",
            Origin::User => "User",
            Origin::Admin => "Admin",
            Origin::Bridge => "Bridge",
        }
    }
}

} // verus!
