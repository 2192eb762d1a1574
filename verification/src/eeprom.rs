//! Layout of the totals in the data EEPROM, and how a 32-bit word is stored
//! there as two 16-bit half-words.
//!
//! The reads and writes themselves are done by the caller; this module says
//! which half-word goes to which address and how a word is put together from
//! what is read back.
use vstd::prelude::*;

verus! {

/// Address of the first byte of the data EEPROM.
pub const EEPROM_BASE: u32 = 0x0808_0000;

/// Offset, in bytes, of the stored total hit duration.
pub const HITTIME_OFFSET: u32 = 0x0002;

/// Offset, in bytes, of the stored total hit count.
pub const HITCOUNT_OFFSET: u32 = 0x0006;

/// What an erased EEPROM word reads as.
pub const ERASED_WORD: u32 = 0xFFFF_FFFF;

/// The largest offset at which a whole word fits below the end of the
/// address space.
pub const MAX_WORD_OFFSET: u32 = 0xF7F7_FFFD;

/// A stored word is used only where it is neither erased nor zero.
pub open spec fn is_restorable(saved: u32) -> bool {
    saved != ERASED_WORD && saved != 0
}

/// The low half-word of a word.
pub open spec fn low_half(data: u32) -> u16 {
    (data % 0x1_0000) as u16
}

/// The high half-word of a word.
pub open spec fn high_half(data: u32) -> u16 {
    (data / 0x1_0000) as u16
}

/// The word made of a low and a high half-word.
pub open spec fn join_halves(lo: u16, hi: u16) -> u32 {
    (hi * 0x1_0000 + lo) as u32
}

/// The two half-word writes that store `data` at `offset`: the low half at
/// the word's address, the high half two bytes further.
pub open spec fn word_writes(offset: u32, data: u32) -> ((u32, u16), (u32, u16)) {
    (((EEPROM_BASE + offset) as u32, low_half(data)), ((EEPROM_BASE + offset + 2) as u32, high_half(data)))
}

/// The addresses of the low and the high half-word of the word at `offset`.
pub open spec fn word_addresses(offset: u32) -> (u32, u32) {
    ((EEPROM_BASE + offset) as u32, (EEPROM_BASE + offset + 2) as u32)
}

/// The value to restore from a stored word, if it holds one.
pub fn restored_word(saved: u32) -> (r: Option<u32>)
    ensures
        r == (if is_restorable(saved) { Some(saved) } else { None }),
{
    if saved != ERASED_WORD && saved != 0 {
        Some(saved)
    } else {
        None
    }
}

/// The address of the half-word at `offset` in the data EEPROM.
pub fn halfword_address(offset: u32) -> (r: u32)
    requires
        offset <= u32::MAX - EEPROM_BASE,
    ensures
        r == EEPROM_BASE + offset,
{
    EEPROM_BASE + offset
}

/// Splits a word into its low and high half-words.
pub fn word_halves(data: u32) -> (r: (u16, u16))
    ensures
        r == (low_half(data), high_half(data)),
{
    let lo = (data & 0xFFFF) as u16;
    let hi = (data >> 16) as u16;
    assert(data & 0xFFFF == data % 0x1_0000) by (bit_vector);
    assert(data >> 16 == data / 0x1_0000) by (bit_vector);
    (lo, hi)
}

/// Puts a word together from its low and high half-words.
pub fn word_from_halves(lo: u16, hi: u16) -> (r: u32)
    ensures
        r == join_halves(lo, hi),
{
    let r = ((hi as u32) << 16) | (lo as u32);
    assert(((hi as u32) << 16) | (lo as u32) == hi * 0x1_0000 + lo) by (bit_vector);
    r
}

/// The two half-word writes, address and value, that store `data` at
/// `offset`, in the order they are made.
pub fn word_write_plan(offset: u32, data: u32) -> (r: ((u32, u16), (u32, u16)))
    requires
        offset <= MAX_WORD_OFFSET,
    ensures
        r == word_writes(offset, data),
{
    let (lo, hi) = word_halves(data);
    ((halfword_address(offset), lo), (halfword_address(offset + 2), hi))
}

/// The addresses of the low and the high half-word to read for the word at
/// `offset`.
pub fn word_read_addresses(offset: u32) -> (r: (u32, u32))
    requires
        offset <= MAX_WORD_OFFSET,
    ensures
        r == word_addresses(offset),
{
    (halfword_address(offset), halfword_address(offset + 2))
}

/// Splitting a word and putting the halves together again gives the word;
/// putting two halves together and splitting gives the halves.
pub proof fn law_halves_round_trip(data: u32, lo: u16, hi: u16)
    ensures
        join_halves(low_half(data), high_half(data)) == data,
        low_half(join_halves(lo, hi)) == lo,
        high_half(join_halves(lo, hi)) == hi,
{
    assert(join_halves(low_half(data), high_half(data)) == data) by (nonlinear_arith);
    assert(low_half(join_halves(lo, hi)) == lo && high_half(join_halves(lo, hi)) == hi) by (nonlinear_arith);
}

/// Reading back a stored word gives what was stored: the word is read from
/// the very addresses it was written to, and the half-words written there put
/// together make the word again.
pub proof fn law_read_gives_back_written_word(offset: u32, data: u32)
    requires
        offset <= MAX_WORD_OFFSET,
    ensures
        word_addresses(offset) == (word_writes(offset, data).0.0, word_writes(offset, data).1.0),
        join_halves(word_writes(offset, data).0.1, word_writes(offset, data).1.1) == data,
{
    law_halves_round_trip(data, 0, 0);
}

/// The stored duration and the stored count occupy four different
/// half-words, so writing one never changes the other.
pub proof fn law_stored_totals_do_not_overlap()
    ensures
        ({
            let (d0, d1) = word_addresses(HITTIME_OFFSET);
            let (c0, c1) = word_addresses(HITCOUNT_OFFSET);
            d0 != d1 && d0 != c0 && d0 != c1 && d1 != c0 && d1 != c1 && c0 != c1
        }),
{
}

} // verus!
