//! The datagram: twenty little-endian words in eighty bytes.
//!
//! There is no header, no padding and no length prefix. Field `k` occupies
//! the bytes `4k .. 4k + 4`:
//!
//! | field | bytes  | content          | carried as       |
//! |-------|--------|------------------|------------------|
//! | 0     | 0..4   | player x         | float bits       |
//! | 1     | 4..8   | player y         | float bits       |
//! | 2     | 8..12  | horizontal flip  | unsigned, 0 or 1 |
//! | 3     | 12..16 | portal x         | float bits       |
//! | 4     | 16..20 | portal y         | float bits       |
//! | 5     | 20..24 | portal rotation  | float bits       |
//! | 6     | 24..28 | frame x          | signed           |
//! | 7     | 28..32 | frame y          | signed           |
//! | 8     | 32..36 | frame width      | unsigned         |
//! | 9     | 36..40 | frame height     | unsigned         |
//! | 10    | 40..44 | block x          | signed           |
//! | 11    | 44..48 | block y          | signed           |
//! | 12    | 48..52 | block carried    | unsigned, 0 or 1 |
//! | 13    | 52..56 | wand x           | signed           |
//! | 14    | 56..60 | wand y           | signed           |
//! | 15    | 60..64 | wand rotation    | float bits       |
//! | 16    | 64..68 | potion x         | float bits       |
//! | 17    | 68..72 | potion y         | float bits       |
//! | 18    | 72..76 | potion rotation  | float bits       |
//! | 19    | 76..80 | potion tag       | signed, 0, 1, 2  |

use vstd::prelude::*;
use crate::wire::{
    join_word, le_byte, le_value, lemma_join_then_split, lemma_split_then_join, split_word,
};

verus! {

/// Length of every datagram, in bytes.
pub const PACKET_SIZE: usize = 80;

/// Number of fields in a datagram.
pub const FIELD_COUNT: usize = 20;

/// Field of the player's x position.
pub const PLAYER_X: usize = 0;

/// Field of the player's y position.
pub const PLAYER_Y: usize = 1;

/// Field that says whether the player is drawn flipped horizontally.
pub const PLAYER_FLIP: usize = 2;

/// Field of the portal's x position.
pub const PORTAL_X: usize = 3;

/// Field of the portal's y position.
pub const PORTAL_Y: usize = 4;

/// Field of the portal's rotation.
pub const PORTAL_ROTATION: usize = 5;

/// Field of the animation frame's x position.
pub const FRAME_X: usize = 6;

/// Field of the animation frame's y position.
pub const FRAME_Y: usize = 7;

/// Field of the animation frame's width.
pub const FRAME_WIDTH: usize = 8;

/// Field of the animation frame's height.
pub const FRAME_HEIGHT: usize = 9;

/// Field of the block's x position.
pub const BLOCK_X: usize = 10;

/// Field of the block's y position.
pub const BLOCK_Y: usize = 11;

/// Field that says whether the block is carried.
pub const BLOCK_CARRIED: usize = 12;

/// Field of the wand's x position.
pub const WAND_X: usize = 13;

/// Field of the wand's y position.
pub const WAND_Y: usize = 14;

/// Field of the wand's rotation.
pub const WAND_ROTATION: usize = 15;

/// Field of the potion's x position.
pub const POTION_X: usize = 16;

/// Field of the potion's y position.
pub const POTION_Y: usize = 17;

/// Field of the potion's rotation.
pub const POTION_ROTATION: usize = 18;

/// Field of the tag that says which potion is in flight.
pub const POTION_TAG: usize = 19;

/// The bytes of the datagram that carries `words`: byte `i` is byte `i % 4`
/// of word `i / 4`.
///
/// Opaque, so that proofs about sections are not flooded with divisions:
/// reveal it to compute single bytes, or go by the lemmas of this module.
#[verifier::opaque]
pub open spec fn packet_bytes(words: Seq<u32>) -> Seq<u8>
    recommends
        words.len() == FIELD_COUNT,
{
    Seq::new(PACKET_SIZE as nat, |i: int| le_byte(words[i / 4], i % 4))
}

/// The word that `bytes` holds in field `k`. Opaque like [`packet_bytes`].
#[verifier::opaque]
pub open spec fn field(bytes: Seq<u8>, k: int) -> u32
    recommends
        bytes.len() == PACKET_SIZE,
        0 <= k < FIELD_COUNT,
{
    le_value(bytes[4 * k], bytes[4 * k + 1], bytes[4 * k + 2], bytes[4 * k + 3])
}

/// All twenty words of `bytes`, in field order.
pub open spec fn fields(bytes: Seq<u8>) -> Seq<u32>
    recommends
        bytes.len() == PACKET_SIZE,
{
    Seq::new(FIELD_COUNT as nat, |k: int| field(bytes, k))
}

/// Every datagram has eighty bytes.
pub proof fn lemma_packet_length(words: Seq<u32>)
    ensures
        packet_bytes(words).len() == PACKET_SIZE,
{
    reveal(packet_bytes);
}

/// Byte-exactness: the window of field `k` holds the four little-endian
/// bytes of word `k`, lowest first.
pub proof fn lemma_window_of_packet(words: Seq<u32>, k: int)
    requires
        words.len() == FIELD_COUNT,
        0 <= k < FIELD_COUNT,
    ensures
        packet_bytes(words)[4 * k] == le_byte(words[k], 0),
        packet_bytes(words)[4 * k + 1] == le_byte(words[k], 1),
        packet_bytes(words)[4 * k + 2] == le_byte(words[k], 2),
        packet_bytes(words)[4 * k + 3] == le_byte(words[k], 3),
{
    reveal(packet_bytes);
}

/// The word in field `k` is the one whose little-endian bytes stand in the
/// window of that field.
pub proof fn lemma_field_reads_window(bytes: Seq<u8>, k: int)
    ensures
        field(bytes, k) == le_value(
            bytes[4 * k],
            bytes[4 * k + 1],
            bytes[4 * k + 2],
            bytes[4 * k + 3],
        ),
{
    reveal(field);
}

/// Reading field `k` of a datagram gives the word that was stored there.
pub proof fn lemma_field_of_packet(words: Seq<u32>, k: int)
    requires
        words.len() == FIELD_COUNT,
        0 <= k < FIELD_COUNT,
    ensures
        field(packet_bytes(words), k) == words[k],
{
    reveal(field);
    lemma_window_of_packet(words, k);
    lemma_split_then_join(words[k]);
}

/// Reading all fields of a datagram gives the words that were stored.
pub proof fn lemma_fields_of_packet(words: Seq<u32>)
    requires
        words.len() == FIELD_COUNT,
    ensures
        fields(packet_bytes(words)) == words,
{
    assert forall|k: int| 0 <= k < FIELD_COUNT implies fields(packet_bytes(words))[k]
        == words[k] by {
        lemma_field_of_packet(words, k);
    }
}

/// Every eighty bytes are the datagram of the words they hold: the format
/// has no byte that a field does not own, and no two ways to write a word.
pub proof fn lemma_packet_of_fields(bytes: Seq<u8>)
    requires
        bytes.len() == PACKET_SIZE,
    ensures
        packet_bytes(fields(bytes)) == bytes,
{
    reveal(packet_bytes);
    reveal(field);
    assert forall|i: int| 0 <= i < PACKET_SIZE implies packet_bytes(fields(bytes))[i]
        == bytes[i] by {
        let k = i / 4;
        lemma_join_then_split(bytes[4 * k], bytes[4 * k + 1], bytes[4 * k + 2], bytes[4 * k + 3]);
    }
}

/// A field owns its window. Take the words of two states that differ in
/// field `k` at most: their datagrams are equal in every byte outside
/// `4k .. 4k + 4`, and if the words of field `k` differ, so does at least one
/// byte inside.
pub proof fn lemma_field_owns_its_window(a: Seq<u32>, b: Seq<u32>, k: int)
    requires
        a.len() == FIELD_COUNT,
        b.len() == FIELD_COUNT,
        0 <= k < FIELD_COUNT,
        forall|j: int| 0 <= j < FIELD_COUNT && j != k ==> a[j] == b[j],
    ensures
        forall|i: int|
            0 <= i < PACKET_SIZE && !(4 * k <= i < 4 * k + 4) ==> packet_bytes(a)[i]
                == packet_bytes(b)[i],
        a[k] != b[k] ==> exists|i: int|
            4 * k <= i < 4 * k + 4 && packet_bytes(a)[i] != packet_bytes(b)[i],
{
    let pa = packet_bytes(a);
    let pb = packet_bytes(b);
    assert forall|i: int| 0 <= i < PACKET_SIZE && !(4 * k <= i < 4 * k + 4) implies pa[i]
        == pb[i] by {
        reveal(packet_bytes);
        assert(i / 4 != k);
    }
    if a[k] != b[k] {
        lemma_field_of_packet(a, k);
        lemma_field_of_packet(b, k);
        assert(pa[4 * k] != pb[4 * k] || pa[4 * k + 1] != pb[4 * k + 1] || pa[4 * k + 2]
            != pb[4 * k + 2] || pa[4 * k + 3] != pb[4 * k + 3]) by {
            reveal(field);
        }
    }
}

/// Lays `words` out as a datagram.
pub fn store_fields(words: &[u32; FIELD_COUNT]) -> (buf: [u8; PACKET_SIZE])
    ensures
        buf@ == packet_bytes(words@),
{
    proof {
        reveal(packet_bytes);
    }
    let mut buf = [0u8; PACKET_SIZE];
    for k in 0..FIELD_COUNT
        invariant
            forall|i: int| 0 <= i < 4 * k ==> buf@[i] == le_byte(words@[i / 4], i % 4),
    {
        let bytes = split_word(words[k]);
        buf[4 * k] = bytes[0];
        buf[4 * k + 1] = bytes[1];
        buf[4 * k + 2] = bytes[2];
        buf[4 * k + 3] = bytes[3];
    }
    buf
}

/// Reads the word in field `k` of a datagram.
pub fn load_field(buf: &[u8; PACKET_SIZE], k: usize) -> (w: u32)
    requires
        k < FIELD_COUNT,
    ensures
        w == field(buf@, k as int),
{
    proof {
        reveal(field);
    }
    join_word(buf[4 * k], buf[4 * k + 1], buf[4 * k + 2], buf[4 * k + 3])
}

} // verus!
