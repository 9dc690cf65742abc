//! The persisted state: one count, stored as a little-endian 32-bit integer
//! at the start of a buffer that the host owns.

use crate::error::MutateError;
use crate::wire::{
    lemma_bytes_of_word_value, lemma_value_of_word_bytes, word_bytes, word_from_bytes,
    word_to_bytes, word_value,
};
use vstd::prelude::*;

verus! {

/// Number of bytes that the stored record occupies.
pub const RECORD_WIDTH: usize = 4;

/// The whole persisted state.
#[derive(Clone, Copy, Debug, PartialEq, Eq, Structural)]
pub struct CounterRecord {
    pub count: u32,
}

/// The bytes that a record is stored as.
pub open spec fn record_bytes(record: CounterRecord) -> Seq<u8> {
    word_bytes(record.count)
}

/// The record that a buffer holds in its first [`RECORD_WIDTH`] bytes, if it
/// is long enough to hold one. Every such run of bytes is a record.
pub open spec fn parse_record(buffer: Seq<u8>) -> Option<CounterRecord> {
    if buffer.len() < RECORD_WIDTH {
        None
    } else {
        Some(CounterRecord { count: word_value(buffer.subrange(0, RECORD_WIDTH as int)) as u32 })
    }
}

/// The buffer with `record` stored at its start and every later byte kept.
pub open spec fn store_record(buffer: Seq<u8>, record: CounterRecord) -> Seq<u8>
    recommends
        buffer.len() >= RECORD_WIDTH,
{
    record_bytes(record) + buffer.subrange(RECORD_WIDTH as int, buffer.len() as int)
}

/// A record that was encoded is decoded to itself, whatever follows it in
/// the buffer.
pub proof fn lemma_record_round_trip(record: CounterRecord, rest: Seq<u8>)
    ensures
        record_bytes(record).len() == RECORD_WIDTH,
        parse_record(record_bytes(record)) == Some(record),
        parse_record(record_bytes(record) + rest) == Some(record),
{
    let encoded = record_bytes(record);
    lemma_value_of_word_bytes(record.count);
    assert(encoded.subrange(0, RECORD_WIDTH as int) =~= encoded);
    assert((encoded + rest).subrange(0, RECORD_WIDTH as int) =~= encoded);
}

/// Storing the record that a buffer already holds changes no byte of it.
pub proof fn lemma_store_parsed_record(buffer: Seq<u8>)
    requires
        buffer.len() >= RECORD_WIDTH,
    ensures
        store_record(buffer, parse_record(buffer).unwrap()) == buffer,
{
    lemma_bytes_of_word_value(buffer.subrange(0, RECORD_WIDTH as int));
    assert(store_record(buffer, parse_record(buffer).unwrap()) =~= buffer);
}

/// After a record was stored, the buffer has its old length, holds that
/// record, and holds behind it what it held before.
pub proof fn lemma_parse_stored_record(buffer: Seq<u8>, record: CounterRecord)
    requires
        buffer.len() >= RECORD_WIDTH,
    ensures
        store_record(buffer, record).len() == buffer.len(),
        parse_record(store_record(buffer, record)) == Some(record),
        store_record(buffer, record).subrange(RECORD_WIDTH as int, buffer.len() as int)
            == buffer.subrange(RECORD_WIDTH as int, buffer.len() as int),
{
    let rest = buffer.subrange(RECORD_WIDTH as int, buffer.len() as int);
    lemma_record_round_trip(record, rest);
    assert(store_record(buffer, record).subrange(RECORD_WIDTH as int, buffer.len() as int)
        =~= rest);
}

/// Encodes `record` as the bytes it is stored as.
pub fn encode_record(record: CounterRecord) -> (bytes: [u8; 4])
    ensures
        bytes@ == record_bytes(record),
        parse_record(bytes@) == Some(record),
{
    proof {
        lemma_record_round_trip(record, Seq::empty());
    }
    word_to_bytes(record.count)
}

/// Decodes the record at the start of `buffer`. A buffer shorter than
/// [`RECORD_WIDTH`] holds none; bytes behind the record are not looked at.
pub fn decode_record(buffer: &[u8]) -> (result: Result<CounterRecord, MutateError>)
    ensures
        result.ok() == parse_record(buffer@),
        result is Ok <==> buffer@.len() >= RECORD_WIDTH,
        result is Err ==> result.err() == Some(MutateError::Corrupt),
{
    if buffer.len() < RECORD_WIDTH {
        return Err(MutateError::Corrupt);
    }
    let field: [u8; 4] = [buffer[0], buffer[1], buffer[2], buffer[3]];
    assert(field@ =~= buffer@.subrange(0, RECORD_WIDTH as int));
    Ok(CounterRecord { count: word_from_bytes(field) })
}

} // verus!
