//! Shared protocol data: directional input flags, the per-tick input value,
//! and the replicated player components.
//!
//! Positions are kept in integer world units so that the movement
//! integration is bit-for-bit identical on client and server; one unit is
//! one world-space step of the presentation layer.

use vstd::prelude::*;

verus! {

/// Distance a player moves along one axis per tick for each active
/// direction flag.
pub const MOVE_SPEED: i64 = 10;

/// One tick's worth of directional intent; any subset of the four flags may
/// be set at once.
#[derive(Clone, Copy, Debug, PartialEq, Eq, Structural)]
pub struct Direction {
    pub up: bool,
    pub down: bool,
    pub left: bool,
    pub right: bool,
}

impl Direction {
    /// True when no flag at all is set.
    pub fn is_none(&self) -> (r: bool)
        ensures
            r == (!self.up && !self.down && !self.left && !self.right),
    {
        !self.up && !self.down && !self.left && !self.right
    }
}

/// The input a client produces once per tick. The explicit `NoInput`
/// variant is required: it lets the server tell real silence apart from a
/// lost packet.
#[derive(Clone, Copy, Debug, PartialEq, Eq, Structural)]
pub enum Inputs {
    Direction(Direction),
    Delete,
    Spawn,
    NoInput,
}

/// A discrete application event, carried on the reliable-ordered
/// channel.
#[derive(Clone, Copy, Debug, PartialEq, Eq, Structural)]
pub struct Message1(pub usize);

/// The discrete messages of the protocol.
#[derive(Clone, Copy, Debug, PartialEq, Eq, Structural)]
pub enum Messages {
    Message1(Message1),
}

/// Identity of the peer that owns a player entity; synchronized once at
/// entity creation and never re-sent.
#[derive(Clone, Copy, Debug, PartialEq, Eq, Structural)]
pub struct PlayerId(pub u64);

/// Authoritative 2D position of a player entity; continuously synchronized
/// and subject to prediction and interpolation.
#[derive(Clone, Copy, Debug, PartialEq, Eq, Structural)]
pub struct PlayerPosition {
    pub x: i64,
    pub y: i64,
}

impl PlayerPosition {
    pub fn origin() -> (r: PlayerPosition)
        ensures
            r.x == 0 && r.y == 0,
    {
        PlayerPosition { x: 0, y: 0 }
    }

    /// Scale both coordinates, as the interpolation blend does.
    pub fn mul(&self, rhs: i64) -> (r: PlayerPosition)
        requires
            -0x7fff_ffff < self.x < 0x7fff_ffff,
            -0x7fff_ffff < self.y < 0x7fff_ffff,
            -0x7fff_ffff < rhs < 0x7fff_ffff,
        ensures
            r.x == self.x * rhs,
            r.y == self.y * rhs,
    {
        proof {
            lemma_mul_small(self.x as int, rhs as int);
            lemma_mul_small(self.y as int, rhs as int);
        }
        PlayerPosition { x: self.x * rhs, y: self.y * rhs }
    }
}

/// Product of two values below `2^31` in magnitude stays below `2^62`.
proof fn lemma_mul_small(a: int, b: int)
    requires
        -0x7fff_ffff < a < 0x7fff_ffff,
        -0x7fff_ffff < b < 0x7fff_ffff,
    ensures
        -0x4000_0000_0000_0000 < a * b < 0x4000_0000_0000_0000,
{
    assert(-0x4000_0000_0000_0000 < a * b < 0x4000_0000_0000_0000) by (nonlinear_arith)
        requires
            -0x7fff_ffff < a < 0x7fff_ffff,
            -0x7fff_ffff < b < 0x7fff_ffff,
    ;
}

} // verus!
