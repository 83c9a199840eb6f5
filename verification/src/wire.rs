//! Little-endian words: how one 32-bit value lies in four bytes.
//!
//! Every field of the datagram is one such word. The order of its bytes is
//! fixed by arithmetic on the value, so it is the same on every host. Signed
//! integers travel in two's complement and booleans as the words 0 and 1.

use vstd::prelude::*;

verus! {

/// Byte `k` of the little-endian form of `w`: its base-256 digit of weight
/// `256^k`, for `k` from 0 to 3.
pub open spec fn le_byte(w: u32, k: int) -> u8
    recommends
        0 <= k < 4,
{
    if k == 0 {
        (w % 256) as u8
    } else if k == 1 {
        (w / 256 % 256) as u8
    } else if k == 2 {
        (w / 65536 % 256) as u8
    } else {
        (w / 16777216 % 256) as u8
    }
}

/// The word whose little-endian form is `b0 b1 b2 b3`.
pub open spec fn le_value(b0: u8, b1: u8, b2: u8, b3: u8) -> u32 {
    (b0 + 256 * b1 + 65536 * b2 + 16777216 * b3) as u32
}

/// The word that carries the signed integer `x`: its two's complement.
pub open spec fn signed_word(x: i32) -> u32 {
    if x >= 0 {
        x as u32
    } else {
        (x + 0x1_0000_0000) as u32
    }
}

/// The signed integer that the word `w` carries.
pub open spec fn word_signed(w: u32) -> i32 {
    if w < 0x8000_0000 {
        w as i32
    } else {
        (w - 0x1_0000_0000) as i32
    }
}

/// The word that carries the boolean `b`: 1 for true, 0 for false.
pub open spec fn flag_word(b: bool) -> u32 {
    if b {
        1
    } else {
        0
    }
}

/// Splitting a word into bytes and joining them gives the word back.
pub proof fn lemma_split_then_join(w: u32)
    ensures
        le_value(le_byte(w, 0), le_byte(w, 1), le_byte(w, 2), le_byte(w, 3)) == w,
{
}

/// Joining four bytes and splitting the word gives the bytes back.
pub proof fn lemma_join_then_split(b0: u8, b1: u8, b2: u8, b3: u8)
    ensures
        le_byte(le_value(b0, b1, b2, b3), 0) == b0,
        le_byte(le_value(b0, b1, b2, b3), 1) == b1,
        le_byte(le_value(b0, b1, b2, b3), 2) == b2,
        le_byte(le_value(b0, b1, b2, b3), 3) == b3,
{
    assert({
        let w = (b0 + 256 * b1 + 65536 * b2 + 16777216 * b3) as u32;
        &&& w % 256 == b0
        &&& w / 256 % 256 == b1
        &&& w / 65536 % 256 == b2
        &&& w / 16777216 % 256 == b3
    }) by (bit_vector);
}

/// Every signed integer comes back from the word that carries it.
pub proof fn lemma_signed_round_trip(x: i32)
    ensures
        word_signed(signed_word(x)) == x,
{
}

/// Every word is the one that carries the signed integer read from it.
pub proof fn lemma_word_round_trip(w: u32)
    ensures
        signed_word(word_signed(w)) == w,
{
}

/// Every boolean comes back from the word that carries it: under the strict
/// reading, which takes 1 for true and 0 for false and nothing else, and
/// under the lenient one, which takes any word but 0 for true.
pub proof fn lemma_flag_round_trip(b: bool)
    ensures
        flag_word(b) <= 1,
        (flag_word(b) == 1) == b,
        (flag_word(b) != 0) == b,
{
}

/// Splits `w` into its four little-endian bytes, lowest first.
pub fn split_word(w: u32) -> (bytes: [u8; 4])
    ensures
        bytes[0] == le_byte(w, 0),
        bytes[1] == le_byte(w, 1),
        bytes[2] == le_byte(w, 2),
        bytes[3] == le_byte(w, 3),
{
    [(w % 256) as u8, (w / 256 % 256) as u8, (w / 65536 % 256) as u8, (w / 16777216) as u8]
}

/// Joins four little-endian bytes, lowest first, into the word they stand
/// for.
pub fn join_word(b0: u8, b1: u8, b2: u8, b3: u8) -> (w: u32)
    ensures
        w == le_value(b0, b1, b2, b3),
{
    b0 as u32 + 256 * (b1 as u32) + 65536 * (b2 as u32) + 16777216 * (b3 as u32)
}

/// Carries a signed integer as a word.
pub fn signed_to_word(x: i32) -> (w: u32)
    ensures
        w == signed_word(x),
{
    assert(x as u32 == if x >= 0 {
        x as u32
    } else {
        (x + 0x1_0000_0000) as u32
    }) by (bit_vector);
    x as u32
}

/// Reads a word as the signed integer it carries.
pub fn word_to_signed(w: u32) -> (x: i32)
    ensures
        x == word_signed(w),
{
    assert(w as i32 == if w < 0x8000_0000 {
        w as i32
    } else {
        (w - 0x1_0000_0000) as i32
    }) by (bit_vector);
    w as i32
}

/// Carries a boolean as a word.
pub fn flag_to_word(b: bool) -> (w: u32)
    ensures
        w == flag_word(b),
{
    if b {
        1
    } else {
        0
    }
}

} // verus!
