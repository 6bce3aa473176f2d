//! Little-endian words and two's complement, the number formats of the kernel interface on the
//! two architectures that are supported (x86_64 and aarch64).

use vstd::prelude::*;

verus! {

/// The number whose two's complement in sixteen bits is `word`.
pub open spec fn signed_word(word: u16) -> int {
    if word < 0x8000 {
        word as int
    } else {
        word - 0x1_0000
    }
}

/// The two's complement of `value` in sixteen bits.
pub open spec fn unsigned_word(value: i16) -> int {
    if value < 0 {
        value + 0x1_0000
    } else {
        value as int
    }
}

/// The number that the bytes of `bytes` from `at` on write in little-endian order, two of them.
pub open spec fn word_at(bytes: Seq<u8>, at: int) -> int {
    bytes[at] + 0x100 * bytes[at + 1]
}

/// The number that four bytes of `bytes` from `at` on write in little-endian order.
pub open spec fn double_word_at(bytes: Seq<u8>, at: int) -> int {
    word_at(bytes, at) + 0x1_0000 * word_at(bytes, at + 2)
}

/// The bytes of `word` in little-endian order.
pub open spec fn word_bytes(word: u16) -> Seq<u8> {
    seq![(word % 0x100) as u8, (word / 0x100) as u8]
}

/// The bytes of `value` in little-endian order.
pub open spec fn double_word_bytes(value: u32) -> Seq<u8> {
    word_bytes((value % 0x1_0000) as u16) + word_bytes((value / 0x1_0000) as u16)
}

/// Reads sixteen bits as a signed number.
pub fn to_signed(word: u16) -> (value: i16)
    ensures
        value == signed_word(word),
        unsigned_word(value) == word,
{
    if word < 0x8000 {
        word as i16
    } else {
        (word as i32 - 0x1_0000) as i16
    }
}

/// Writes a signed number in sixteen bits.
pub fn to_unsigned(value: i16) -> (word: u16)
    ensures
        word == unsigned_word(value),
        signed_word(word) == value,
{
    if value < 0 {
        (value as i32 + 0x1_0000) as u16
    } else {
        value as u16
    }
}

/// Reads the two bytes at `at`.
pub fn read_word(bytes: &[u8], at: usize) -> (word: u16)
    requires
        at + 2 <= bytes@.len(),
    ensures
        word == word_at(bytes@, at as int),
{
    bytes[at] as u16 + 0x100 * (bytes[at + 1] as u16)
}

/// Reads the four bytes at `at`.
pub fn read_double_word(bytes: &[u8], at: usize) -> (value: u32)
    requires
        at + 4 <= bytes@.len(),
    ensures
        value == double_word_at(bytes@, at as int),
{
    assert(bytes@.len() == bytes.len());
    read_word(bytes, at) as u32 + 0x1_0000 * (read_word(bytes, at + 2) as u32)
}

/// A word that was written is read back, whatever stands before and behind it.
pub proof fn word_is_read_back(before: Seq<u8>, word: u16, after: Seq<u8>)
    ensures
        word_at(before + word_bytes(word) + after, before.len() as int) == word,
{
    let all = before + word_bytes(word) + after;
    assert(all[before.len() as int] == (word % 0x100) as u8);
    assert(all[before.len() as int + 1] == (word / 0x100) as u8);
}

/// A double word that was written is read back, whatever stands before and behind it.
pub proof fn double_word_is_read_back(before: Seq<u8>, value: u32, after: Seq<u8>)
    ensures
        double_word_at(before + double_word_bytes(value) + after, before.len() as int) == value,
{
    let low = (value % 0x1_0000) as u16;
    let high = (value / 0x1_0000) as u16;
    let all = before + double_word_bytes(value) + after;
    word_is_read_back(before, low, word_bytes(high) + after);
    word_is_read_back(before + word_bytes(low), high, after);
    assert(all =~= before + word_bytes(low) + (word_bytes(high) + after));
    assert(all =~= (before + word_bytes(low)) + word_bytes(high) + after);
}

/// Sixteen bits and the signed number that they are differ by a multiple of 65536, and a signed
/// number lies between -32768 and 32767. Reading and writing undo each other.
pub proof fn twos_complement(word: u16, value: i16, written: u16, read: i16)
    requires
        call_ensures(to_signed, (word,), read),
        call_ensures(to_unsigned, (value,), written),
    ensures
        read == word || read == word - 0x1_0000,
        written == value || written == value + 0x1_0000,
        value == read <==> written == word,
{
}

/// The lower byte stands first.
pub proof fn lower_byte_stands_first(bytes: &[u8], at: usize, word: u16)
    requires
        at + 2 <= bytes@.len(),
        call_ensures(read_word, (bytes, at), word),
    ensures
        word % 0x100 == bytes@[at as int],
        word / 0x100 == bytes@[at + 1],
{
}

/// Of four bytes the lowest stands first, and the others follow in their order.
pub proof fn lower_word_stands_first(bytes: &[u8], at: usize, value: u32)
    requires
        at + 4 <= bytes@.len(),
        call_ensures(read_double_word, (bytes, at), value),
    ensures
        value == bytes@[at as int] + 0x100 * bytes@[at + 1] + 0x1_0000 * bytes@[at + 2]
            + 0x100_0000 * bytes@[at + 3],
{
}

} // verus!
