//! Error kinds shared by the system functions.
//!
//! Every error aborts the whole invocation: a system that fails leaves its
//! component record exactly as it found it, so the caller never observes a
//! partial mutation.

use vstd::prelude::*;

verus! {

/// Why a textual identity failed to parse into a 32-byte identity value.
#[derive(Clone, Copy, Debug, PartialEq, Eq, Structural)]
pub enum IdentityParseKind {
    /// The text does not decode to exactly 32 bytes.
    WrongSize,
    /// The text holds a character outside the base-58 alphabet.
    Invalid,
}

/// The failure modes of a system invocation.
#[derive(Clone, Copy, Debug, PartialEq, Eq, Structural)]
pub enum SystemError {
    /// The argument buffer could not be decoded into the system's typed
    /// argument record: truncated or oversized data, or an enum discriminant
    /// outside the known range.
    DecodeFailure,
    /// The textual identity handed to the identity system is not a
    /// well-formed identity string; the parser's failure reason is kept.
    IdentityParseFailure(IdentityParseKind),
    /// The grid coordinates handed to the tile mutation system fall outside
    /// the 10 by 10 grid.
    IndexOutOfRange,
}

} // verus!
