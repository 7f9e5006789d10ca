//! The player: where the avatar stands and how it walks.

use crate::pig::{clamp_coord, Position};
use vstd::prelude::*;

verus! {

/// The nanoseconds in one second.
pub const NANOS_PER_SECOND: u64 = 1_000_000_000;

/// The speed of the avatar, in thousandths of a world unit per second.
pub const PLAYER_SPEED: u64 = 100_000;

/// The way the avatar walks.
#[derive(Clone, Copy, Debug, PartialEq, Eq, Structural)]
pub enum Direction {
    Up,
    Down,
    Right,
    Left,
}

impl Direction {
    /// The one direction taken when several keys are held: up before down,
    /// down before right, right before left.
    pub open spec fn chosen(up: bool, down: bool, right: bool, left: bool) -> Option<Direction> {
        if up {
            Some(Direction::Up)
        } else if down {
            Some(Direction::Down)
        } else if right {
            Some(Direction::Right)
        } else if left {
            Some(Direction::Left)
        } else {
            None
        }
    }

    /// The one direction taken when several keys are held: up before down,
    /// down before right, right before left; none when no key is held.
    pub fn from_keys(up: bool, down: bool, right: bool, left: bool) -> (d: Option<Direction>)
        ensures
            d == Direction::chosen(up, down, right, left),
    {
        if up {
            Some(Direction::Up)
        } else if down {
            Some(Direction::Down)
        } else if right {
            Some(Direction::Right)
        } else if left {
            Some(Direction::Left)
        } else {
            None
        }
    }
}

/// The avatar of the player.
#[derive(Clone, Copy, Debug, PartialEq, Eq, Structural)]
pub struct Player {
    /// Where the avatar stands, in thousandths of a world unit.
    pub position: Position,
    /// How fast it walks, in thousandths of a world unit per second.
    pub speed: u64,
}

impl Player {
    /// How far the avatar walks in `delta` nanoseconds, in thousandths of a
    /// world unit, rounded down.
    pub open spec fn stride(self, delta: nat) -> int {
        (self.speed * delta) / (NANOS_PER_SECOND as int)
    }

    /// The avatar after `delta` nanoseconds of walking in `direction`, held at
    /// the edge of the map.
    pub open spec fn walked(self, direction: Option<Direction>, delta: nat) -> Player {
        let d = self.stride(delta);
        let position = match direction {
            Some(Direction::Up) => Position { y: clamp_coord(self.position.y + d), ..self.position },
            Some(Direction::Down) => Position {
                y: clamp_coord(self.position.y - d),
                ..self.position
            },
            Some(Direction::Right) => Position {
                x: clamp_coord(self.position.x + d),
                ..self.position
            },
            Some(Direction::Left) => Position {
                x: clamp_coord(self.position.x - d),
                ..self.position
            },
            None => self.position,
        };
        Player { position, ..self }
    }

    /// An avatar at `position` that walks at `speed`.
    pub fn new(position: Position, speed: u64) -> (p: Player)
        ensures
            p == (Player { position, speed }),
    {
        Player { position, speed }
    }

    /// How far the avatar walks in `delta` nanoseconds.
    fn stride_of(&self, delta: u64) -> (d: i128)
        ensures
            d == self.stride(delta as nat),
            0 <= d <= 0x1_0000_0000_0000_0000_0000_0000_0000,
    {
        assert(self.speed * delta <= 0xffff_ffff_ffff_ffff_ffff_ffff_ffff_ffffint)
            by (nonlinear_arith)
            requires
                0 <= self.speed <= 0xffff_ffff_ffff_ffffint,
                0 <= delta <= 0xffff_ffff_ffff_ffffint,
        ;
        let product: u128 = self.speed as u128 * delta as u128;
        let d: u128 = product / (NANOS_PER_SECOND as u128);
        assert(d as int == (product as int) / 1_000_000_000) by {
            assert(NANOS_PER_SECOND == 1_000_000_000);
        }
        assert(d <= 0x1_0000_0000_0000_0000_0000_0000_0000);
        d as i128
    }

    /// Lets the avatar walk for `delta` nanoseconds in `direction`; with no
    /// direction it stands still.
    pub fn walk(&mut self, direction: Option<Direction>, delta: u64)
        ensures
            *final(self) == old(self).walked(direction, delta as nat),
    {
        let d: i128 = self.stride_of(delta);
        match direction {
            Some(Direction::Up) => {
                self.position.y = clamp_wide(self.position.y as i128 + d);
            },
            Some(Direction::Down) => {
                self.position.y = clamp_wide(self.position.y as i128 - d);
            },
            Some(Direction::Right) => {
                self.position.x = clamp_wide(self.position.x as i128 + d);
            },
            Some(Direction::Left) => {
                self.position.x = clamp_wide(self.position.x as i128 - d);
            },
            None => {},
        }
    }
}

/// A wide coordinate brought back into the range of the map.
fn clamp_wide(v: i128) -> (c: i64)
    ensures
        c == clamp_coord(v as int),
{
    if v < i64::MIN as i128 {
        i64::MIN
    } else if v > i64::MAX as i128 {
        i64::MAX
    } else {
        v as i64
    }
}

/// With no key held the avatar stays where it is, and with a key held it
/// moves along one axis only.
pub proof fn lemma_walk_along_one_axis(p: Player, direction: Option<Direction>, delta: nat)
    ensures
        p.walked(direction, delta).speed == p.speed,
        direction is None ==> p.walked(direction, delta) == p,
        p.walked(direction, delta).position.x == p.position.x || p.walked(
            direction,
            delta,
        ).position.y == p.position.y,
{
}

} // verus!
