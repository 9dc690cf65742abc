//! Commands and the payload format that carries them: one discriminant byte,
//! then the amount as a little-endian 32-bit integer.

use crate::error::DecodeError;
use crate::wire::{word_from_bytes, word_value};
use vstd::prelude::*;

verus! {

/// Discriminant byte of [`Command::Increment`].
pub const INCREMENT_TAG: u8 = 0;

/// Discriminant byte of [`Command::Decrement`].
pub const DECREMENT_TAG: u8 = 1;

/// Number of payload bytes that a command is read from.
pub const COMMAND_WIDTH: usize = 5;

/// A change requested of the counter.
#[derive(Clone, Copy, Debug, PartialEq, Eq, Structural)]
pub enum Command {
    /// Raise the count by the amount.
    Increment(u32),
    /// Lower the count by the amount.
    Decrement(u32),
}

/// Whether `tag` is the discriminant of a command.
pub open spec fn is_known_tag(tag: u8) -> bool {
    tag == INCREMENT_TAG || tag == DECREMENT_TAG
}

/// The amount that a payload of at least [`COMMAND_WIDTH`] bytes carries
/// behind its discriminant.
pub open spec fn payload_amount(payload: Seq<u8>) -> u32
    recommends
        payload.len() >= COMMAND_WIDTH,
{
    word_value(payload.subrange(1, COMMAND_WIDTH as int)) as u32
}

/// What a payload means. The discriminant is looked at first, so a payload
/// with an unknown leading byte is rejected as such whatever its length.
/// Bytes behind the amount are not looked at.
pub open spec fn parse_command(payload: Seq<u8>) -> Result<Command, DecodeError> {
    if payload.len() == 0 {
        Err(DecodeError::Truncated)
    } else if !is_known_tag(payload[0]) {
        Err(DecodeError::UnknownDiscriminant)
    } else if payload.len() < COMMAND_WIDTH {
        Err(DecodeError::Truncated)
    } else if payload[0] == INCREMENT_TAG {
        Ok(Command::Increment(payload_amount(payload)))
    } else {
        Ok(Command::Decrement(payload_amount(payload)))
    }
}

/// Decodes a command from `payload`. Either a whole command comes back or an
/// error does; the payload is only read.
pub fn decode(payload: &[u8]) -> (result: Result<Command, DecodeError>)
    ensures
        result == parse_command(payload@),
        result is Ok <==> payload@.len() >= COMMAND_WIDTH && is_known_tag(payload@[0]),
        result.err() == Some(DecodeError::UnknownDiscriminant)
            <==> payload@.len() > 0 && !is_known_tag(payload@[0]),
        result.err() == Some(DecodeError::Truncated)
            <==> payload@.len() == 0
                || (is_known_tag(payload@[0]) && payload@.len() < COMMAND_WIDTH),
        result matches Ok(Command::Increment(amount))
            ==> payload@[0] == INCREMENT_TAG && amount == payload_amount(payload@),
        result matches Ok(Command::Decrement(amount))
            ==> payload@[0] == DECREMENT_TAG && amount == payload_amount(payload@),
{
    if payload.len() == 0 {
        return Err(DecodeError::Truncated);
    }
    let tag: u8 = payload[0];
    if tag != INCREMENT_TAG && tag != DECREMENT_TAG {
        return Err(DecodeError::UnknownDiscriminant);
    }
    if payload.len() < COMMAND_WIDTH {
        return Err(DecodeError::Truncated);
    }
    let field: [u8; 4] = [payload[1], payload[2], payload[3], payload[4]];
    assert(field@ =~= payload@.subrange(1, COMMAND_WIDTH as int));
    let amount: u32 = word_from_bytes(field);
    if tag == INCREMENT_TAG {
        Ok(Command::Increment(amount))
    } else {
        Ok(Command::Decrement(amount))
    }
}

} // verus!
