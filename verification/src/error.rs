//! The failures that an invocation can end in. Each is reported once to the
//! caller; none is retried and nothing is clamped.

use vstd::prelude::*;

verus! {

/// Why a payload holds no command.
#[derive(Clone, Copy, Debug, PartialEq, Eq, Structural)]
pub enum DecodeError {
    /// The payload is empty, or ends before the amount does.
    Truncated,
    /// The leading byte is the discriminant of no command.
    UnknownDiscriminant,
}

/// Why a command left the stored record as it was.
#[derive(Clone, Copy, Debug, PartialEq, Eq, Structural)]
pub enum MutateError {
    /// The buffer is too short to hold a record.
    Corrupt,
    /// The incremented count would not fit in 32 bits.
    Overflow,
    /// The decremented count would be negative.
    Underflow,
}

/// The one typed failure that the handler returns to its host.
#[derive(Clone, Copy, Debug, PartialEq, Eq, Structural)]
pub enum ContractError {
    /// No command could be decoded; the buffer was not looked at.
    Decode(DecodeError),
    /// The command was decoded and could not be applied.
    Mutate(MutateError),
}

} // verus!
