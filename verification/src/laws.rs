//! What holds of the codec as a whole: whatever is packed comes back
//! unpacked, in either role and for every state of the potion, and a
//! datagram is refused for its flip field or its tag and for nothing else.
//!
//! The laws on the bytes themselves, which field owns which of them, stand
//! with the layout of the datagram.

use vstd::prelude::*;
use crate::networking::{
    block_of, decoded_of, packet_of, player_of, portal_of, portal_slot, potion_of, wand_of,
    wire_words, Mode,
};
use crate::packet::{
    field, fields, lemma_field_of_packet, lemma_fields_of_packet, packet_bytes, FIELD_COUNT,
    PLAYER_FLIP, POTION_ROTATION, POTION_TAG, POTION_X, POTION_Y,
};
use crate::state::{
    BlockState, DecodeError, DecodedState, PlayerState, PortalState, PotionState, WandState,
};
use crate::wire::{lemma_flag_round_trip, lemma_signed_round_trip};

verus! {

/// Each field of a packed datagram holds the word of its section's value:
/// read field by field, the datagram is the words that were packed.
pub proof fn lemma_fields_of_packed_state(
    mode: Mode,
    player: PlayerState,
    portals: Seq<PortalState>,
    block: BlockState,
    wand: WandState,
    potion: PotionState,
)
    requires
        portals.len() == 2,
    ensures
        fields(packet_of(mode, player, portals, block, wand, potion)) == wire_words(
            player,
            portals[portal_slot(mode)],
            block,
            wand,
            potion,
        ),
        forall|k: int|
            0 <= k < FIELD_COUNT ==> #[trigger] field(
                packet_of(mode, player, portals, block, wand, potion),
                k,
            ) == wire_words(player, portals[portal_slot(mode)], block, wand, potion)[k],
{
    let words = wire_words(player, portals[portal_slot(mode)], block, wand, potion);
    lemma_fields_of_packet(words);
    assert forall|k: int| 0 <= k < FIELD_COUNT implies #[trigger] field(packet_bytes(words), k)
        == words[k] by {
        lemma_field_of_packet(words, k);
    }
}

/// The player section comes back as it was packed, in either role and
/// whatever travels with it.
pub proof fn lemma_player_round_trip(
    mode: Mode,
    player: PlayerState,
    portals: Seq<PortalState>,
    block: BlockState,
    wand: WandState,
    potion: PotionState,
)
    requires
        portals.len() == 2,
    ensures
        player_of(packet_of(mode, player, portals, block, wand, potion)) == Ok::<
            PlayerState,
            DecodeError,
        >(player),
{
    lemma_fields_of_packed_state(mode, player, portals, block, wand, potion);
    lemma_flag_round_trip(player.flip_horizontal);
    lemma_signed_round_trip(player.frame.x);
    lemma_signed_round_trip(player.frame.y);
}

/// The sender's own portal comes back as it was packed: the portal in slot 0
/// from the first player, the portal in slot 1 from the second.
pub proof fn lemma_portal_round_trip(
    mode: Mode,
    player: PlayerState,
    portals: Seq<PortalState>,
    block: BlockState,
    wand: WandState,
    potion: PotionState,
)
    requires
        portals.len() == 2,
    ensures
        portal_of(packet_of(mode, player, portals, block, wand, potion)) == match mode {
            Mode::MultiplayerPlayer1 => portals[0],
            Mode::MultiplayerPlayer2 => portals[1],
        },
{
    lemma_fields_of_packed_state(mode, player, portals, block, wand, potion);
}

/// The block section comes back as it was packed, in either role and
/// whatever travels with it.
pub proof fn lemma_block_round_trip(
    mode: Mode,
    player: PlayerState,
    portals: Seq<PortalState>,
    block: BlockState,
    wand: WandState,
    potion: PotionState,
)
    requires
        portals.len() == 2,
    ensures
        block_of(packet_of(mode, player, portals, block, wand, potion)) == block,
{
    lemma_fields_of_packed_state(mode, player, portals, block, wand, potion);
    lemma_flag_round_trip(block.carried);
    lemma_signed_round_trip(block.x);
    lemma_signed_round_trip(block.y);
}

/// The wand section comes back as it was packed, in either role and
/// whatever travels with it.
pub proof fn lemma_wand_round_trip(
    mode: Mode,
    player: PlayerState,
    portals: Seq<PortalState>,
    block: BlockState,
    wand: WandState,
    potion: PotionState,
)
    requires
        portals.len() == 2,
    ensures
        wand_of(packet_of(mode, player, portals, block, wand, potion)) == wand,
{
    lemma_fields_of_packed_state(mode, player, portals, block, wand, potion);
    lemma_signed_round_trip(wand.x);
    lemma_signed_round_trip(wand.y);
}

/// The potion section comes back as it was packed, whichever of its three
/// states it is in, in either role and whatever travels with it.
pub proof fn lemma_potion_round_trip(
    mode: Mode,
    player: PlayerState,
    portals: Seq<PortalState>,
    block: BlockState,
    wand: WandState,
    potion: PotionState,
)
    requires
        portals.len() == 2,
    ensures
        potion_of(packet_of(mode, player, portals, block, wand, potion)) == Ok::<
            PotionState,
            DecodeError,
        >(potion),
{
    lemma_fields_of_packed_state(mode, player, portals, block, wand, potion);
    lemma_signed_round_trip(potion.tag());
}

/// Round trip: every state that is packed decodes, and decodes to itself,
/// with the sender's own portal in the portal section.
pub proof fn lemma_round_trip(
    mode: Mode,
    player: PlayerState,
    portals: Seq<PortalState>,
    block: BlockState,
    wand: WandState,
    potion: PotionState,
)
    requires
        portals.len() == 2,
    ensures
        decoded_of(packet_of(mode, player, portals, block, wand, potion)) == Ok::<
            DecodedState,
            DecodeError,
        >(DecodedState { player, portal: portals[portal_slot(mode)], block, wand, potion }),
{
    lemma_player_round_trip(mode, player, portals, block, wand, potion);
    lemma_portal_round_trip(mode, player, portals, block, wand, potion);
    lemma_block_round_trip(mode, player, portals, block, wand, potion);
    lemma_wand_round_trip(mode, player, portals, block, wand, potion);
    lemma_potion_round_trip(mode, player, portals, block, wand, potion);
}

/// While no potion is in flight, the potion fields carry three zeros and
/// the tag 2, and decode to no throw.
pub proof fn lemma_no_throw_on_the_wire(
    mode: Mode,
    player: PlayerState,
    portals: Seq<PortalState>,
    block: BlockState,
    wand: WandState,
)
    requires
        portals.len() == 2,
    ensures
        ({
            let bytes = packet_of(mode, player, portals, block, wand, PotionState::NoThrow);
            &&& field(bytes, POTION_X as int) == 0
            &&& field(bytes, POTION_Y as int) == 0
            &&& field(bytes, POTION_ROTATION as int) == 0
            &&& field(bytes, POTION_TAG as int) == 2
            &&& potion_of(bytes) == Ok::<PotionState, DecodeError>(PotionState::NoThrow)
        }),
{
    lemma_fields_of_packed_state(mode, player, portals, block, wand, PotionState::NoThrow);
}

/// The flip field alone decides whether a datagram has a player section:
/// it has none if and only if the field holds a word other than 0 and 1,
/// whatever the other bytes are.
pub proof fn lemma_flip_decides_player(bytes: Seq<u8>)
    ensures
        player_of(bytes) is Err <==> field(bytes, PLAYER_FLIP as int) != 0 && field(
            bytes,
            PLAYER_FLIP as int,
        ) != 1,
        player_of(bytes) is Err ==> player_of(bytes) == Err::<PlayerState, DecodeError>(
            DecodeError::InvalidBooleanEncoding,
        ),
{
}

/// The tag alone decides whether a datagram has a potion section: it has
/// none if and only if the tag is none of 0, 1 and 2.
pub proof fn lemma_tag_decides_potion(bytes: Seq<u8>)
    ensures
        potion_of(bytes) is Err <==> field(bytes, POTION_TAG as int) > 2,
        potion_of(bytes) is Err ==> potion_of(bytes) == Err::<PotionState, DecodeError>(
            DecodeError::InvalidTag,
        ),
{
}

/// A datagram decodes as a whole if and only if its flip field and its tag
/// are in order; a bad flip field is reported before a bad tag.
pub proof fn lemma_flip_and_tag_decide_decoding(bytes: Seq<u8>)
    ensures
        decoded_of(bytes) is Ok <==> field(bytes, PLAYER_FLIP as int) <= 1 && field(
            bytes,
            POTION_TAG as int,
        ) <= 2,
        field(bytes, PLAYER_FLIP as int) > 1 ==> decoded_of(bytes) == Err::<
            DecodedState,
            DecodeError,
        >(DecodeError::InvalidBooleanEncoding),
        field(bytes, PLAYER_FLIP as int) <= 1 && field(bytes, POTION_TAG as int) > 2
            ==> decoded_of(bytes) == Err::<DecodedState, DecodeError>(DecodeError::InvalidTag),
{
}

} // verus!
