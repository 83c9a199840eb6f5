//! The values that one datagram carries, section by section.
//!
//! Each section is filled from the live game on every send and handed back to
//! it on every receive; nothing here outlives one tick.

use vstd::prelude::*;

verus! {

/// A 32-bit floating-point number, held as its IEEE 754 bit pattern.
///
/// The codec passes the pattern through untouched, so every number, signed
/// zeros, infinities and NaNs among them, arrives bit for bit. Two values are
/// equal when their patterns are.
#[derive(Clone, Copy, Debug, PartialEq, Eq, Structural)]
pub struct FloatBits {
    pub bits: u32,
}

/// The rectangle of the sprite sheet that shows the current animation frame.
#[derive(Clone, Copy, Debug, PartialEq, Eq, Structural)]
pub struct Frame {
    pub x: i32,
    pub y: i32,
    pub width: u32,
    pub height: u32,
}

/// Where the sending player stands and how it is drawn.
#[derive(Clone, Copy, Debug, PartialEq, Eq, Structural)]
pub struct PlayerState {
    pub x: FloatBits,
    pub y: FloatBits,
    pub flip_horizontal: bool,
    pub frame: Frame,
}

/// Position and rotation of one portal.
#[derive(Clone, Copy, Debug, PartialEq, Eq, Structural)]
pub struct PortalState {
    pub x: FloatBits,
    pub y: FloatBits,
    pub rotation: FloatBits,
}

/// The block that a player can carry.
#[derive(Clone, Copy, Debug, PartialEq, Eq, Structural)]
pub struct BlockState {
    pub x: i32,
    pub y: i32,
    pub carried: bool,
}

/// The cursor of the wand.
#[derive(Clone, Copy, Debug, PartialEq, Eq, Structural)]
pub struct WandState {
    pub x: i32,
    pub y: i32,
    pub rotation: FloatBits,
}

/// Position and rotation of a potion in flight.
#[derive(Clone, Copy, Debug, PartialEq, Eq, Structural)]
pub struct Throw {
    pub x: FloatBits,
    pub y: FloatBits,
    pub rotation: FloatBits,
}

/// The potion that is in flight, if any. At most one is at a time.
#[derive(Clone, Copy, Debug, PartialEq, Eq, Structural)]
pub enum PotionState {
    /// The first kind of potion is in flight; travels under tag 0.
    Thrown(Throw),
    /// The second kind of potion is in flight; travels under tag 1.
    AltThrown(Throw),
    /// No potion is in flight; travels under tag 2 with an all-zero throw.
    NoThrow,
}

/// Everything that one datagram carries.
#[derive(Clone, Copy, Debug, PartialEq, Eq, Structural)]
pub struct DecodedState {
    pub player: PlayerState,
    /// The sender's own portal. Which of the two portals of the game that is
    /// follows from the sender's role, not from the datagram.
    pub portal: PortalState,
    pub block: BlockState,
    pub wand: WandState,
    pub potion: PotionState,
}

/// Why a datagram was not decoded.
#[derive(Clone, Copy, Debug, PartialEq, Eq, Structural)]
pub enum DecodeError {
    /// A field that carries a boolean holds neither 0 nor 1.
    InvalidBooleanEncoding,
    /// The potion tag is none of 0, 1 and 2.
    InvalidTag,
}

impl Throw {
    /// The throw that fills the potion fields while no potion is in flight:
    /// all its bits are zero.
    pub open spec fn filler() -> Throw {
        Throw {
            x: FloatBits { bits: 0 },
            y: FloatBits { bits: 0 },
            rotation: FloatBits { bits: 0 },
        }
    }
}

impl PotionState {
    /// The tag under which this state travels.
    pub open spec fn spec_tag(&self) -> i32 {
        match self {
            PotionState::Thrown(_) => 0,
            PotionState::AltThrown(_) => 1,
            PotionState::NoThrow => 2,
        }
    }

    /// The throw that travels with the tag.
    pub open spec fn spec_throw(&self) -> Throw {
        match self {
            PotionState::Thrown(throw) => *throw,
            PotionState::AltThrown(throw) => *throw,
            PotionState::NoThrow => Throw::filler(),
        }
    }

    /// The state that the two potion slots of the game amount to: the first
    /// kind of potion if it is in flight, else the second kind if that is,
    /// else none.
    pub open spec fn of_slots(thrown: Option<Throw>, alt_thrown: Option<Throw>) -> PotionState {
        match (thrown, alt_thrown) {
            (Some(throw), _) => PotionState::Thrown(throw),
            (None, Some(throw)) => PotionState::AltThrown(throw),
            (None, None) => PotionState::NoThrow,
        }
    }

    /// The tag under which this state travels: 0 for the first kind of
    /// potion, 1 for the second, 2 for none.
    #[verifier::when_used_as_spec(spec_tag)]
    pub fn tag(&self) -> (tag: i32)
        ensures
            tag == self.spec_tag(),
    {
        match self {
            PotionState::Thrown(_) => 0,
            PotionState::AltThrown(_) => 1,
            PotionState::NoThrow => 2,
        }
    }

    /// The throw that travels with the tag: the potion in flight, or zeros
    /// if there is none.
    #[verifier::when_used_as_spec(spec_throw)]
    pub fn throw(&self) -> (throw: Throw)
        ensures
            throw == self.spec_throw(),
    {
        match self {
            PotionState::Thrown(throw) => *throw,
            PotionState::AltThrown(throw) => *throw,
            PotionState::NoThrow => Throw {
                x: FloatBits { bits: 0 },
                y: FloatBits { bits: 0 },
                rotation: FloatBits { bits: 0 },
            },
        }
    }

    /// Picks the potion to send from the two potion slots of the game. The
    /// game keeps at most one potion in flight; should both slots be filled,
    /// the first wins.
    pub fn from_slots(thrown: Option<Throw>, alt_thrown: Option<Throw>) -> (potion: PotionState)
        ensures
            potion == PotionState::of_slots(thrown, alt_thrown),
    {
        match thrown {
            Some(throw) => PotionState::Thrown(throw),
            None => match alt_thrown {
                Some(throw) => PotionState::AltThrown(throw),
                None => PotionState::NoThrow,
            },
        }
    }
}

} // verus!
