//! The movement system: advances an agent's position along one axis and
//! turns it to face the direction it moved.
//!
//! The step magnitude is not fixed: the caller supplies a non-negative
//! oracle value (for instance a wall-clock-derived counter), and the system
//! moves by `1 + oracle % 6` cells. Two invocations that sample the same
//! oracle value move by the same step. Coordinates are not clamped: the
//! world has no boundary, so positions may go negative or grow without
//! bound.

use vstd::prelude::*;
use crate::errors::SystemError;
use crate::player::{Facing, Player};

verus! {

/// The direction to move in, decoded from the argument buffer. An argument
/// record, not persisted state.
#[derive(Clone, Copy, Debug, PartialEq, Eq, Structural)]
pub enum Direction {
    Left,
    Right,
    Up,
    Down,
}

/// The movement argument record decoded from buffer `b`: a single
/// discriminant byte naming the direction. Any other length, and any
/// discriminant outside the known range, is a decode failure.
pub open spec fn spec_decode_direction(b: Seq<u8>) -> Option<Direction> {
    if b.len() == 1 {
        if b[0] == 0 {
            Some(Direction::Left)
        } else if b[0] == 1 {
            Some(Direction::Right)
        } else if b[0] == 2 {
            Some(Direction::Up)
        } else if b[0] == 3 {
            Some(Direction::Down)
        } else {
            None
        }
    } else {
        None
    }
}

/// The step magnitude derived from one oracle sample: always in `[1, 6]`.
pub open spec fn step_of(oracle: u64) -> int {
    1 + oracle % 6
}

/// The facing that matches a movement direction.
pub open spec fn facing_of(d: Direction) -> Facing {
    match d {
        Direction::Left => Facing::Left,
        Direction::Right => Facing::Right,
        Direction::Up => Facing::Up,
        Direction::Down => Facing::Down,
    }
}

/// The direction that undoes `d`.
pub open spec fn opposite(d: Direction) -> Direction {
    match d {
        Direction::Left => Direction::Right,
        Direction::Right => Direction::Left,
        Direction::Up => Direction::Down,
        Direction::Down => Direction::Up,
    }
}

/// The agent `p` moved `step` cells in direction `d` and turned to face `d`.
/// Left and right move `x` (negative and positive respectively), up and down
/// move `y` (positive and negative respectively); the owning identity and
/// the alive flag are untouched.
pub open spec fn spec_move(p: Player, d: Direction, step: int) -> Player
    recommends
        i64::MIN <= p.x - step,
        p.x + step <= i64::MAX,
        i64::MIN <= p.y - step,
        p.y + step <= i64::MAX,
{
    match d {
        Direction::Left => Player { x: (p.x - step) as i64, facing: Facing::Left, ..p },
        Direction::Right => Player { x: (p.x + step) as i64, facing: Facing::Right, ..p },
        Direction::Up => Player { y: (p.y + step) as i64, facing: Facing::Up, ..p },
        Direction::Down => Player { y: (p.y - step) as i64, facing: Facing::Down, ..p },
    }
}

/// Decodes the movement argument buffer.
fn decode_direction(args_p: &Vec<u8>) -> (r: Option<Direction>)
    ensures
        r == spec_decode_direction(args_p@),
{
    if args_p.len() != 1 {
        return None;
    }
    let tag = args_p[0];
    if tag == 0 {
        Some(Direction::Left)
    } else if tag == 1 {
        Some(Direction::Right)
    } else if tag == 2 {
        Some(Direction::Up)
    } else if tag == 3 {
        Some(Direction::Down)
    } else {
        None
    }
}

/// Applies the movement system to one agent.
///
/// The argument buffer must decode to a direction; on a decode failure the
/// agent is left untouched. On success the agent has moved `1 + oracle % 6`
/// cells in that direction, faces it, and the updated record is returned for
/// the caller to persist. The bound on the starting position only keeps the
/// unbounded-plane model inside the machine integers: a step is at most 6.
pub fn execute(position: &mut Player, args_p: &Vec<u8>, oracle: u64) -> (r: Result<
    Player,
    SystemError,
>)
    requires
        i64::MIN + 6 <= old(position).x <= i64::MAX - 6,
        i64::MIN + 6 <= old(position).y <= i64::MAX - 6,
    ensures
        match spec_decode_direction(args_p@) {
            Some(d) => {
                &&& r matches Ok(p)
                &&& p == *final(position)
                &&& *final(position) == spec_move(*old(position), d, step_of(oracle))
            },
            None => {
                &&& r == Err::<Player, SystemError>(SystemError::DecodeFailure)
                &&& *final(position) == *old(position)
            },
        },
{
    let direction = match decode_direction(args_p) {
        Some(d) => d,
        None => {
            return Err(SystemError::DecodeFailure);
        },
    };

    let delta = 1 + (oracle % 6) as i64;

    match direction {
        Direction::Left => {
            position.x = position.x - delta;
            position.facing = Facing::Left;
        },
        Direction::Right => {
            position.x = position.x + delta;
            position.facing = Facing::Right;
        },
        Direction::Up => {
            position.y = position.y + delta;
            position.facing = Facing::Up;
        },
        Direction::Down => {
            position.y = position.y - delta;
            position.facing = Facing::Down;
        },
    }

    Ok(*position)
}

/// Moving in a direction and then in its opposite, with the same oracle
/// sample for both invocations, returns the agent to its starting position.
pub proof fn lemma_movement_round_trip(p: Player, d: Direction, oracle: u64)
    requires
        i64::MIN + 6 <= p.x <= i64::MAX - 6,
        i64::MIN + 6 <= p.y <= i64::MAX - 6,
    ensures
        spec_move(spec_move(p, d, step_of(oracle)), opposite(d), step_of(oracle)).x == p.x,
        spec_move(spec_move(p, d, step_of(oracle)), opposite(d), step_of(oracle)).y == p.y,
{
}

/// Movement always turns the agent to face the direction it moved, whatever
/// the step; every other field but the moved coordinate is kept.
pub proof fn lemma_movement_sets_facing(p: Player, d: Direction, step: int)
    ensures
        spec_move(p, d, step).facing == facing_of(d),
        spec_move(p, d, step).player_id == p.player_id,
        spec_move(p, d, step).alive == p.alive,
{
}

} // verus!
