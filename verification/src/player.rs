//! The movable agent component.

use vstd::prelude::*;
use crate::identity::Pubkey;

verus! {

/// The direction an agent is facing. There is no unset state: a fresh agent
/// faces down.
#[derive(Clone, Copy, Debug, PartialEq, Eq, Structural)]
pub enum Facing {
    Up,
    Down,
    Left,
    Right,
}

impl Default for Facing {
    fn default() -> (r: Self)
        ensures
            r == Facing::Down,
    {
        Facing::Down
    }
}

/// The movable agent component: a position on the unbounded plane, the
/// direction it faces, its owning identity and an alive flag.
///
/// `x` and `y` are written only by the movement system, `facing` only by the
/// movement system, and `player_id` and `alive` only by the identity system.
#[derive(Clone, Copy, Debug, PartialEq, Eq)]
pub struct Player {
    pub x: i64,
    pub y: i64,
    pub facing: Facing,
    pub player_id: Pubkey,
    pub alive: bool,
}

} // verus!
