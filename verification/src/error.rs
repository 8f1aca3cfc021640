//! The error kinds of the decode engine.

use vstd::prelude::*;

verus! {

/// Why a decode, a lookup or a whole refresh failed.
#[derive(Clone, Copy, Debug, PartialEq, Eq, Structural)]
pub enum DecodeError {
    /// A foreign read or write was rejected or faulted.
    ReadFailure,
    /// The data read was structurally valid but semantically disallowed
    /// (a deny-listed item name, an unknown rarity code).
    DecodeRejected,
    /// An index or length read from the foreign process implies an
    /// unreasonable buffer size.
    SizeSanityViolation,
    /// A name-based object search exhausted the list without a match.
    LookupFailure,
}

impl DecodeError {
    /// A short description, for callers that report errors as text.
    pub fn describe(&self) -> (r: &'static str)
        ensures
            *self is ReadFailure ==> r@ == "foreign read or write failed"@,
            *self is DecodeRejected ==> r@ == "decoded data is disallowed"@,
            *self is SizeSanityViolation ==> r@ == "implied buffer size is unreasonable"@,
            *self is LookupFailure ==> r@ == "object lookup found no match"@,
    {
        match self {
            DecodeError::ReadFailure => "foreign read or write failed",
            DecodeError::DecodeRejected => "decoded data is disallowed",
            DecodeError::SizeSanityViolation => "implied buffer size is unreasonable",
            DecodeError::LookupFailure => "object lookup found no match",
        }
    }
}

} // verus!
