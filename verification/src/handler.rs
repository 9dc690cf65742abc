//! The handler that a host invokes once per transaction: decode the payload,
//! then mutate the account buffer. Nothing is kept between invocations but
//! the bytes of the buffer.

use crate::command::{decode, parse_command};
use crate::error::ContractError;
use crate::mutator::{apply, transition};
use vstd::prelude::*;

verus! {

/// The contents that an invocation leaves in the buffer, or the failure that
/// it reports and that leaves the buffer as it is. Decoding comes first: a
/// payload that holds no command fails before the buffer is looked at.
pub open spec fn outcome(payload: Seq<u8>, buffer: Seq<u8>) -> Result<Seq<u8>, ContractError> {
    match parse_command(payload) {
        Err(error) => Err(ContractError::Decode(error)),
        Ok(command) => match transition(buffer, command) {
            Ok(bytes) => Ok(bytes),
            Err(error) => Err(ContractError::Mutate(error)),
        },
    }
}

/// Handles one invocation: `instruction_data` is the command payload and
/// `buffer` the storage of the account that holds the counter.
///
/// On success the buffer holds the new record; on any failure no byte of it
/// has changed. The length of the buffer never changes.
pub fn counter_contract(instruction_data: &[u8], buffer: &mut [u8]) -> (result: Result<
    (),
    ContractError,
>)
    ensures
        final(buffer)@.len() == old(buffer)@.len(),
        match outcome(instruction_data@, old(buffer)@) {
            Ok(bytes) => result is Ok && final(buffer)@ == bytes,
            Err(error) => result.err() == Some(error) && final(buffer)@ == old(buffer)@,
        },
        result is Err ==> final(buffer)@ == old(buffer)@,
        parse_command(instruction_data@) matches Err(error)
            ==> result.err() == Some(ContractError::Decode(error)),
        parse_command(instruction_data@) matches Ok(command)
            ==> (match transition(old(buffer)@, command) {
                Ok(bytes) => result is Ok && final(buffer)@ == bytes,
                Err(error) => result.err() == Some(ContractError::Mutate(error)),
            }),
{
    let command = match decode(instruction_data) {
        Ok(command) => command,
        Err(error) => {
            return Err(ContractError::Decode(error));
        },
    };
    match apply(buffer, command) {
        Ok(()) => Ok(()),
        Err(error) => Err(ContractError::Mutate(error)),
    }
}

} // verus!
