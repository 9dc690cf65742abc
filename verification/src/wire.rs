//! Little-endian layout of a 32-bit unsigned integer, the only scalar that
//! appears in a command payload or in the stored record.

use vstd::arithmetic::div_mod::lemma_fundamental_div_mod_converse;
use vstd::prelude::*;

verus! {

/// Number of bytes that one 32-bit integer occupies.
pub const WORD_WIDTH: usize = 4;

/// The number that four bytes denote, least significant byte first.
pub open spec fn word_value(bytes: Seq<u8>) -> nat
    recommends
        bytes.len() == WORD_WIDTH,
{
    (bytes[0] + 256 * bytes[1] + 65_536 * bytes[2] + 16_777_216 * bytes[3]) as nat
}

/// The four bytes that denote `value`, least significant byte first.
pub open spec fn word_bytes(value: u32) -> Seq<u8> {
    seq![
        (value % 256) as u8,
        (value / 256 % 256) as u8,
        (value / 65_536 % 256) as u8,
        (value / 16_777_216) as u8,
    ]
}

/// Writing a number out and reading the bytes back gives the number again.
pub proof fn lemma_value_of_word_bytes(value: u32)
    ensures
        word_bytes(value).len() == WORD_WIDTH,
        word_value(word_bytes(value)) == value,
{
    let v = value as int;
    let lower = v / 256;
    let upper = lower / 256;
    lemma_fundamental_div_mod_converse(v, 65_536, upper, (lower % 256) * 256 + v % 256);
    lemma_fundamental_div_mod_converse(
        v,
        16_777_216,
        upper / 256,
        (upper % 256) * 65_536 + (lower % 256) * 256 + v % 256,
    );
}

/// Four bytes denote a number that a `u32` holds, and writing that number
/// out gives the same four bytes.
pub proof fn lemma_bytes_of_word_value(bytes: Seq<u8>)
    requires
        bytes.len() == WORD_WIDTH,
    ensures
        word_value(bytes) <= u32::MAX,
        word_bytes(word_value(bytes) as u32) == bytes,
{
    let b0 = bytes[0] as int;
    let b1 = bytes[1] as int;
    let b2 = bytes[2] as int;
    let b3 = bytes[3] as int;
    let v = word_value(bytes) as int;
    lemma_fundamental_div_mod_converse(v, 256, b1 + 256 * b2 + 65_536 * b3, b0);
    lemma_fundamental_div_mod_converse(v, 65_536, b2 + 256 * b3, b0 + 256 * b1);
    lemma_fundamental_div_mod_converse(v, 16_777_216, b3, b0 + 256 * b1 + 65_536 * b2);
    lemma_fundamental_div_mod_converse(v / 256, 256, b2 + 256 * b3, b1);
    lemma_fundamental_div_mod_converse(v / 65_536, 256, b3, b2);
    assert(word_bytes(v as u32) =~= bytes);
}

/// Assembles the number that `bytes` denote.
pub fn word_from_bytes(bytes: [u8; 4]) -> (value: u32)
    ensures
        value == word_value(bytes@),
{
    let b0: u32 = bytes[0] as u32;
    let b1: u32 = bytes[1] as u32;
    let b2: u32 = bytes[2] as u32;
    let b3: u32 = bytes[3] as u32;
    b0 + 256 * b1 + 65_536 * b2 + 16_777_216 * b3
}

/// Splits `value` into the four bytes that denote it.
pub fn word_to_bytes(value: u32) -> (bytes: [u8; 4])
    ensures
        bytes@ == word_bytes(value),
{
    [
        (value % 256) as u8,
        (value / 256 % 256) as u8,
        (value / 65_536 % 256) as u8,
        (value / 16_777_216) as u8,
    ]
}

} // verus!
