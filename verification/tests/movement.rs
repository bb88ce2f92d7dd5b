use grid_world::errors::SystemError;
use grid_world::identity::Pubkey;
use grid_world::player::{Facing, Player};
use grid_world::system_movement::execute;

fn agent_at(x: i64, y: i64) -> Player {
    Player { x, y, facing: Facing::Down, player_id: Pubkey { bytes: [7; 32] }, alive: true }
}

#[test]
fn move_right_fixed_step_one() {
    // An oracle sample of 0 gives the smallest step, 1.
    let mut p = agent_at(0, 0);
    let r = execute(&mut p, &vec![1], 0);
    assert_eq!(p.x, 1);
    assert_eq!(p.y, 0);
    assert_eq!(p.facing, Facing::Right);
    assert_eq!(r, Ok(p));
}

#[test]
fn move_each_direction_step_three() {
    // An oracle sample of 2 gives step 1 + 2 % 6 = 3.
    let mut p = agent_at(10, 20);
    assert!(execute(&mut p, &vec![0], 2).is_ok());
    assert_eq!((p.x, p.y, p.facing), (7, 20, Facing::Left));

    let mut p = agent_at(10, 20);
    assert!(execute(&mut p, &vec![1], 2).is_ok());
    assert_eq!((p.x, p.y, p.facing), (13, 20, Facing::Right));

    let mut p = agent_at(10, 20);
    assert!(execute(&mut p, &vec![2], 2).is_ok());
    assert_eq!((p.x, p.y, p.facing), (10, 23, Facing::Up));

    let mut p = agent_at(10, 20);
    assert!(execute(&mut p, &vec![3], 2).is_ok());
    assert_eq!((p.x, p.y, p.facing), (10, 17, Facing::Down));
}

#[test]
fn move_keeps_owner_and_alive() {
    let mut p = agent_at(-4, 9);
    let before = p;
    assert!(execute(&mut p, &vec![2], 11).is_ok());
    assert_eq!(p.player_id, before.player_id);
    assert_eq!(p.alive, before.alive);
}

#[test]
fn move_round_trip_same_oracle() {
    // Moving right and then left with the same oracle sample returns the
    // agent to its starting position.
    let mut p = agent_at(5, 7);
    assert!(execute(&mut p, &vec![1], 9).is_ok());
    assert_eq!((p.x, p.y), (9, 7));
    assert!(execute(&mut p, &vec![0], 9).is_ok());
    assert_eq!((p.x, p.y), (5, 7));
    assert_eq!(p.facing, Facing::Left);
}

#[test]
fn move_positions_may_go_negative() {
    let mut p = agent_at(0, 0);
    assert!(execute(&mut p, &vec![0], 0).is_ok());
    assert_eq!((p.x, p.y), (-1, 0));
    assert!(execute(&mut p, &vec![3], 0).is_ok());
    assert_eq!((p.x, p.y), (-1, -1));
}

#[test]
fn move_decode_failure_leaves_agent_unchanged() {
    let before = agent_at(3, 4);

    // Empty buffer.
    let mut p = before;
    assert_eq!(execute(&mut p, &vec![], 0), Err(SystemError::DecodeFailure));
    assert_eq!(p, before);

    // Discriminant outside the known range.
    let mut p = before;
    assert_eq!(execute(&mut p, &vec![4], 0), Err(SystemError::DecodeFailure));
    assert_eq!(p, before);

    // Trailing byte after the discriminant.
    let mut p = before;
    assert_eq!(execute(&mut p, &vec![1, 0], 0), Err(SystemError::DecodeFailure));
    assert_eq!(p, before);
}
