//! The codec: one datagram out of the sender's state, and the sections of
//! the state out of one datagram.
//!
//! Encoding never fails. Decoding is split by section, so that a caller reads
//! only what it needs; a section either comes back whole or is refused with
//! the reason, and the datagram is never changed.

use vstd::prelude::*;
use crate::packet::{
    field, load_field, packet_bytes, store_fields, BLOCK_CARRIED, BLOCK_X, BLOCK_Y, FIELD_COUNT,
    FRAME_HEIGHT, FRAME_WIDTH, FRAME_X, FRAME_Y, PACKET_SIZE, PLAYER_FLIP, PLAYER_X, PLAYER_Y,
    PORTAL_ROTATION, PORTAL_X, PORTAL_Y, POTION_ROTATION, POTION_TAG, POTION_X, POTION_Y,
    WAND_ROTATION, WAND_X, WAND_Y,
};
use crate::state::{
    BlockState, DecodeError, DecodedState, FloatBits, Frame, PlayerState, PortalState,
    PotionState, Throw, WandState,
};
use crate::wire::{
    flag_to_word, flag_word, signed_to_word, signed_word, word_signed, word_to_signed,
};

verus! {

/// Which of the two players of a session this process is.
#[derive(Clone, Copy, Debug, PartialEq, Eq, Structural)]
pub enum Mode {
    MultiplayerPlayer1,
    MultiplayerPlayer2,
}

/// A two-player session, as seen by one of its players.
#[derive(Clone, Copy, Debug, PartialEq, Eq, Structural)]
pub struct Multiplayer {
    pub mode: Mode,
}

impl Multiplayer {
    /// The session of the player in the given role.
    pub fn new(mode: Mode) -> (multiplayer: Multiplayer)
        ensures
            multiplayer.mode == mode,
    {
        Multiplayer { mode }
    }
}

/// The portal that a player owns and sends: the first player the portal in
/// slot 0, the second player the one in slot 1.
pub open spec fn portal_slot(mode: Mode) -> int {
    match mode {
        Mode::MultiplayerPlayer1 => 0,
        Mode::MultiplayerPlayer2 => 1,
    }
}

/// The twenty words of the datagram that carries the given sections, in
/// field order.
pub open spec fn wire_words(
    player: PlayerState,
    portal: PortalState,
    block: BlockState,
    wand: WandState,
    potion: PotionState,
) -> Seq<u32> {
    seq![
        player.x.bits,
        player.y.bits,
        flag_word(player.flip_horizontal),
        portal.x.bits,
        portal.y.bits,
        portal.rotation.bits,
        signed_word(player.frame.x),
        signed_word(player.frame.y),
        player.frame.width,
        player.frame.height,
        signed_word(block.x),
        signed_word(block.y),
        flag_word(block.carried),
        signed_word(wand.x),
        signed_word(wand.y),
        wand.rotation.bits,
        potion.throw().x.bits,
        potion.throw().y.bits,
        potion.throw().rotation.bits,
        signed_word(potion.tag()),
    ]
}

/// The datagram that a player in the given role sends for the given state.
/// Of the two portals it carries the player's own.
pub open spec fn packet_of(
    mode: Mode,
    player: PlayerState,
    portals: Seq<PortalState>,
    block: BlockState,
    wand: WandState,
    potion: PotionState,
) -> Seq<u8> {
    packet_bytes(wire_words(player, portals[portal_slot(mode)], block, wand, potion))
}

/// The player section of a datagram. The flip field must hold 0 or 1.
pub open spec fn player_of(bytes: Seq<u8>) -> Result<PlayerState, DecodeError> {
    let flip = field(bytes, PLAYER_FLIP as int);
    if flip > 1 {
        Err(DecodeError::InvalidBooleanEncoding)
    } else {
        Ok(
            PlayerState {
                x: FloatBits { bits: field(bytes, PLAYER_X as int) },
                y: FloatBits { bits: field(bytes, PLAYER_Y as int) },
                flip_horizontal: flip == 1,
                frame: Frame {
                    x: word_signed(field(bytes, FRAME_X as int)),
                    y: word_signed(field(bytes, FRAME_Y as int)),
                    width: field(bytes, FRAME_WIDTH as int),
                    height: field(bytes, FRAME_HEIGHT as int),
                },
            },
        )
    }
}

/// The portal section of a datagram.
pub open spec fn portal_of(bytes: Seq<u8>) -> PortalState {
    PortalState {
        x: FloatBits { bits: field(bytes, PORTAL_X as int) },
        y: FloatBits { bits: field(bytes, PORTAL_Y as int) },
        rotation: FloatBits { bits: field(bytes, PORTAL_ROTATION as int) },
    }
}

/// The block section of a datagram. Any word but 0 in the carried field
/// counts as true.
pub open spec fn block_of(bytes: Seq<u8>) -> BlockState {
    BlockState {
        x: word_signed(field(bytes, BLOCK_X as int)),
        y: word_signed(field(bytes, BLOCK_Y as int)),
        carried: field(bytes, BLOCK_CARRIED as int) != 0,
    }
}

/// The wand section of a datagram.
pub open spec fn wand_of(bytes: Seq<u8>) -> WandState {
    WandState {
        x: word_signed(field(bytes, WAND_X as int)),
        y: word_signed(field(bytes, WAND_Y as int)),
        rotation: FloatBits { bits: field(bytes, WAND_ROTATION as int) },
    }
}

/// The throw that the three potion fields of a datagram hold.
pub open spec fn throw_of(bytes: Seq<u8>) -> Throw {
    Throw {
        x: FloatBits { bits: field(bytes, POTION_X as int) },
        y: FloatBits { bits: field(bytes, POTION_Y as int) },
        rotation: FloatBits { bits: field(bytes, POTION_ROTATION as int) },
    }
}

/// The potion section of a datagram. The tag must be 0, 1 or 2; under tag 2
/// the three potion fields are filler and are not looked at.
pub open spec fn potion_of(bytes: Seq<u8>) -> Result<PotionState, DecodeError> {
    let tag = word_signed(field(bytes, POTION_TAG as int));
    if tag == 0 {
        Ok(PotionState::Thrown(throw_of(bytes)))
    } else if tag == 1 {
        Ok(PotionState::AltThrown(throw_of(bytes)))
    } else if tag == 2 {
        Ok(PotionState::NoThrow)
    } else {
        Err(DecodeError::InvalidTag)
    }
}

/// All sections of a datagram. A refused player section is reported before a
/// refused potion section.
pub open spec fn decoded_of(bytes: Seq<u8>) -> Result<DecodedState, DecodeError> {
    match player_of(bytes) {
        Err(e) => Err(e),
        Ok(player) => match potion_of(bytes) {
            Err(e) => Err(e),
            Ok(potion) => Ok(
                DecodedState {
                    player,
                    portal: portal_of(bytes),
                    block: block_of(bytes),
                    wand: wand_of(bytes),
                    potion,
                },
            ),
        },
    }
}

/// Encodes the sender's state as one datagram.
///
/// Of the two portals only the sender's own travels: slot 0 for the first
/// player, slot 1 for the second. While no potion is in flight the potion
/// fields hold zeros under tag 2.
pub fn pack_data(
    multiplayer: &Multiplayer,
    player: &PlayerState,
    portals: &[PortalState; 2],
    block: &BlockState,
    wand: &WandState,
    potion: &PotionState,
) -> (buf: [u8; PACKET_SIZE])
    ensures
        buf@ == packet_of(multiplayer.mode, *player, portals@, *block, *wand, *potion),
{
    let portal = match multiplayer.mode {
        Mode::MultiplayerPlayer1 => portals[0],
        Mode::MultiplayerPlayer2 => portals[1],
    };
    let throw = potion.throw();
    let words: [u32; FIELD_COUNT] = [
        player.x.bits,
        player.y.bits,
        flag_to_word(player.flip_horizontal),
        portal.x.bits,
        portal.y.bits,
        portal.rotation.bits,
        signed_to_word(player.frame.x),
        signed_to_word(player.frame.y),
        player.frame.width,
        player.frame.height,
        signed_to_word(block.x),
        signed_to_word(block.y),
        flag_to_word(block.carried),
        signed_to_word(wand.x),
        signed_to_word(wand.y),
        wand.rotation.bits,
        throw.x.bits,
        throw.y.bits,
        throw.rotation.bits,
        signed_to_word(potion.tag()),
    ];
    assert(words@ =~= wire_words(
        *player,
        portals@[portal_slot(multiplayer.mode)],
        *block,
        *wand,
        *potion,
    ));
    store_fields(&words)
}

/// Decodes the player section. Fails if and only if the flip field holds a
/// word other than 0 and 1.
pub fn unpack_player_data(buf: &mut [u8; PACKET_SIZE]) -> (r: Result<PlayerState, DecodeError>)
    ensures
        *final(buf) == *old(buf),
        r == player_of(old(buf)@),
        r is Err <==> field(old(buf)@, PLAYER_FLIP as int) > 1,
        r is Err ==> r == Err::<PlayerState, DecodeError>(DecodeError::InvalidBooleanEncoding),
{
    let flip: u32 = load_field(buf, PLAYER_FLIP);
    if flip != 1 && flip != 0 {
        return Err(DecodeError::InvalidBooleanEncoding);
    }
    Ok(
        PlayerState {
            x: FloatBits { bits: load_field(buf, PLAYER_X) },
            y: FloatBits { bits: load_field(buf, PLAYER_Y) },
            flip_horizontal: flip == 1,
            frame: Frame {
                x: word_to_signed(load_field(buf, FRAME_X)),
                y: word_to_signed(load_field(buf, FRAME_Y)),
                width: load_field(buf, FRAME_WIDTH),
                height: load_field(buf, FRAME_HEIGHT),
            },
        },
    )
}

/// Decodes the portal section. Every datagram has one.
pub fn unpack_portal_data(buf: &mut [u8; PACKET_SIZE]) -> (portal: PortalState)
    ensures
        *final(buf) == *old(buf),
        portal == portal_of(old(buf)@),
{
    PortalState {
        x: FloatBits { bits: load_field(buf, PORTAL_X) },
        y: FloatBits { bits: load_field(buf, PORTAL_Y) },
        rotation: FloatBits { bits: load_field(buf, PORTAL_ROTATION) },
    }
}

/// Decodes the block section. Every datagram has one: in the carried field
/// any word but 0 counts as true.
pub fn unpack_block_data(buf: &mut [u8; PACKET_SIZE]) -> (block: BlockState)
    ensures
        *final(buf) == *old(buf),
        block == block_of(old(buf)@),
{
    BlockState {
        x: word_to_signed(load_field(buf, BLOCK_X)),
        y: word_to_signed(load_field(buf, BLOCK_Y)),
        carried: load_field(buf, BLOCK_CARRIED) != 0,
    }
}

/// Decodes the wand section. Every datagram has one.
pub fn unpack_wand_data(buf: &mut [u8; PACKET_SIZE]) -> (wand: WandState)
    ensures
        *final(buf) == *old(buf),
        wand == wand_of(old(buf)@),
{
    WandState {
        x: word_to_signed(load_field(buf, WAND_X)),
        y: word_to_signed(load_field(buf, WAND_Y)),
        rotation: FloatBits { bits: load_field(buf, WAND_ROTATION) },
    }
}

/// Decodes the potion section. Fails if and only if the tag is none of 0, 1
/// and 2.
pub fn unpack_potion_data(buf: &mut [u8; PACKET_SIZE]) -> (r: Result<PotionState, DecodeError>)
    ensures
        *final(buf) == *old(buf),
        r == potion_of(old(buf)@),
        r is Err <==> field(old(buf)@, POTION_TAG as int) > 2,
        r is Err ==> r == Err::<PotionState, DecodeError>(DecodeError::InvalidTag),
{
    let tag: i32 = word_to_signed(load_field(buf, POTION_TAG));
    if tag == 2 {
        return Ok(PotionState::NoThrow);
    }
    if tag != 0 && tag != 1 {
        return Err(DecodeError::InvalidTag);
    }
    let throw = Throw {
        x: FloatBits { bits: load_field(buf, POTION_X) },
        y: FloatBits { bits: load_field(buf, POTION_Y) },
        rotation: FloatBits { bits: load_field(buf, POTION_ROTATION) },
    };
    if tag == 0 {
        Ok(PotionState::Thrown(throw))
    } else {
        Ok(PotionState::AltThrown(throw))
    }
}

/// Decodes all sections. Fails if and only if one of the player and potion
/// sections is refused, with the player's reason if both are.
pub fn unpack_data(buf: &mut [u8; PACKET_SIZE]) -> (r: Result<DecodedState, DecodeError>)
    ensures
        *final(buf) == *old(buf),
        r == decoded_of(old(buf)@),
        r is Ok <==> field(old(buf)@, PLAYER_FLIP as int) <= 1 && field(
            old(buf)@,
            POTION_TAG as int,
        ) <= 2,
{
    let player = match unpack_player_data(buf) {
        Ok(player) => player,
        Err(e) => {
            return Err(e);
        },
    };
    let potion = match unpack_potion_data(buf) {
        Ok(potion) => potion,
        Err(e) => {
            return Err(e);
        },
    };
    Ok(
        DecodedState {
            player,
            portal: unpack_portal_data(buf),
            block: unpack_block_data(buf),
            wand: unpack_wand_data(buf),
            potion,
        },
    )
}

} // verus!
