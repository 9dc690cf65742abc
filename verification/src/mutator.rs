//! The state mutator: read the stored record, apply a command to its count
//! with checked arithmetic, and write the record back in place. The write
//! happens only after the record was read and the new count was found to
//! fit.

use crate::command::Command;
use crate::error::MutateError;
use crate::record::{
    decode_record, encode_record, lemma_parse_stored_record, lemma_store_parsed_record,
    parse_record, store_record, CounterRecord, RECORD_WIDTH,
};
use vstd::prelude::*;

verus! {

/// The record that `command` makes of `record`, or the reason why it makes
/// none. Sums and differences are taken in the integers, so a count outside
/// the range of a `u32` is seen and refused, never wrapped.
pub open spec fn next_record(record: CounterRecord, command: Command) -> Result<
    CounterRecord,
    MutateError,
> {
    match command {
        Command::Increment(amount) => if record.count + amount > u32::MAX {
            Err(MutateError::Overflow)
        } else {
            Ok(CounterRecord { count: (record.count + amount) as u32 })
        },
        Command::Decrement(amount) => if record.count < amount {
            Err(MutateError::Underflow)
        } else {
            Ok(CounterRecord { count: (record.count - amount) as u32 })
        },
    }
}

/// The contents that `command` leaves in a buffer, or the failure that
/// leaves the buffer as it is.
pub open spec fn transition(buffer: Seq<u8>, command: Command) -> Result<Seq<u8>, MutateError> {
    match parse_record(buffer) {
        None => Err(MutateError::Corrupt),
        Some(record) => match next_record(record, command) {
            Ok(updated) => Ok(store_record(buffer, updated)),
            Err(error) => Err(error),
        },
    }
}

/// Decrementing by an amount right after incrementing by it restores the
/// count that the buffer held, and with it every byte of the buffer. The
/// increment has to fit; the decrement that follows then always does.
pub proof fn lemma_decrement_undoes_increment(buffer: Seq<u8>, amount: u32)
    requires
        buffer.len() >= RECORD_WIDTH,
        parse_record(buffer).unwrap().count + amount <= u32::MAX,
    ensures
        transition(buffer, Command::Increment(amount)) is Ok,
        transition(
            transition(buffer, Command::Increment(amount)).unwrap(),
            Command::Decrement(amount),
        ) is Ok,
        parse_record(
            transition(
                transition(buffer, Command::Increment(amount)).unwrap(),
                Command::Decrement(amount),
            ).unwrap(),
        ) == parse_record(buffer),
        transition(
            transition(buffer, Command::Increment(amount)).unwrap(),
            Command::Decrement(amount),
        ).unwrap() == buffer,
{
    let before = parse_record(buffer).unwrap();
    let raised = next_record(before, Command::Increment(amount)).unwrap();
    let between = store_record(buffer, raised);
    lemma_parse_stored_record(buffer, raised);
    assert(next_record(raised, Command::Decrement(amount)).ok() == Some(before));
    assert(store_record(between, before) =~= store_record(buffer, before));
    lemma_store_parsed_record(buffer);
}

/// Applies `command` to a record that was already read.
pub fn transform(record: CounterRecord, command: Command) -> (result: Result<
    CounterRecord,
    MutateError,
>)
    ensures
        result == next_record(record, command),
        result.err() == Some(MutateError::Overflow)
            <==> (command matches Command::Increment(amount)
                && record.count + amount > u32::MAX),
        result.err() == Some(MutateError::Underflow)
            <==> (command matches Command::Decrement(amount) && record.count < amount),
        result.err() != Some(MutateError::Corrupt),
{
    match command {
        Command::Increment(amount) => match record.count.checked_add(amount) {
            Some(count) => Ok(CounterRecord { count }),
            None => Err(MutateError::Overflow),
        },
        Command::Decrement(amount) => match record.count.checked_sub(amount) {
            Some(count) => Ok(CounterRecord { count }),
            None => Err(MutateError::Underflow),
        },
    }
}

/// Applies `command` to the record stored at the start of `buffer`.
///
/// On success the first [`RECORD_WIDTH`] bytes hold the new record and every
/// other byte is what it was. On failure no byte has changed. The length of
/// the buffer never changes.
pub fn apply(buffer: &mut [u8], command: Command) -> (result: Result<(), MutateError>)
    ensures
        final(buffer)@.len() == old(buffer)@.len(),
        match transition(old(buffer)@, command) {
            Ok(bytes) => result is Ok && final(buffer)@ == bytes,
            Err(error) => result.err() == Some(error) && final(buffer)@ == old(buffer)@,
        },
        result is Err ==> final(buffer)@ == old(buffer)@,
        result.err() == Some(MutateError::Corrupt) <==> old(buffer)@.len() < RECORD_WIDTH,
        result.err() == Some(MutateError::Overflow)
            <==> (parse_record(old(buffer)@) matches Some(record)
                && command matches Command::Increment(amount)
                && record.count + amount > u32::MAX),
        result.err() == Some(MutateError::Underflow)
            <==> (parse_record(old(buffer)@) matches Some(record)
                && command matches Command::Decrement(amount)
                && record.count < amount),
        result is Ok ==> (parse_record(old(buffer)@) matches Some(record)
            && parse_record(final(buffer)@) == next_record(record, command).ok()),
        result is Ok ==> final(buffer)@.subrange(RECORD_WIDTH as int, final(buffer)@.len() as int)
            == old(buffer)@.subrange(RECORD_WIDTH as int, old(buffer)@.len() as int),
{
    let record = match decode_record(buffer) {
        Ok(record) => record,
        Err(error) => {
            return Err(error);
        },
    };
    let updated = match transform(record, command) {
        Ok(updated) => updated,
        Err(error) => {
            return Err(error);
        },
    };
    let bytes: [u8; 4] = encode_record(updated);
    buffer[0] = bytes[0];
    buffer[1] = bytes[1];
    buffer[2] = bytes[2];
    buffer[3] = bytes[3];
    proof {
        assert(buffer@ =~= store_record(old(buffer)@, updated));
        lemma_parse_stored_record(old(buffer)@, updated);
    }
    Ok(())
}

} // verus!
