use matrix_rpg_net::movement::shared_movement_behaviour;
use matrix_rpg_net::protocol::Direction;
use matrix_rpg_net::protocol::Inputs;
use matrix_rpg_net::protocol::PlayerPosition;
use matrix_rpg_net::protocol::MOVE_SPEED;

fn step(pos: PlayerPosition, input: Inputs) -> PlayerPosition {
    let mut p = pos;
    shared_movement_behaviour(&mut p, &input);
    p
}

fn dir(up: bool, down: bool, left: bool, right: bool) -> Inputs {
    Inputs::Direction(Direction { up, down, left, right })
}

#[test]
fn every_flag_combination_sums_axes() {
    for bits in 0u8..16 {
        let up = bits & 1 != 0;
        let down = bits & 2 != 0;
        let left = bits & 4 != 0;
        let right = bits & 8 != 0;
        let start = PlayerPosition { x: 1000, y: -500 };
        let out = step(start, dir(up, down, left, right));
        let dx = (if right { MOVE_SPEED } else { 0 }) - (if left { MOVE_SPEED } else { 0 });
        let dy = (if up { MOVE_SPEED } else { 0 }) - (if down { MOVE_SPEED } else { 0 });
        assert_eq!(out.x, start.x + dx);
        assert_eq!(out.y, start.y + dy);
    }
}

#[test]
fn opposite_flags_cancel() {
    let start = PlayerPosition { x: 7, y: 7 };
    let out = step(start, dir(true, true, true, true));
    assert_eq!(out.x, 7);
    assert_eq!(out.y, 7);
}

#[test]
fn diagonal_is_unnormalized_sum() {
    let start = PlayerPosition { x: 0, y: 0 };
    let out = step(start, dir(true, false, false, true));
    assert_eq!(out.x, MOVE_SPEED);
    assert_eq!(out.y, MOVE_SPEED);
}

#[test]
fn non_direction_inputs_leave_position_unchanged() {
    let start = PlayerPosition { x: 42, y: -42 };
    for input in [Inputs::Spawn, Inputs::Delete, Inputs::NoInput] {
        let out = step(start, input);
        assert_eq!(out.x, 42);
        assert_eq!(out.y, -42);
    }
}

#[test]
fn step_saturates_at_the_edge_of_the_range() {
    let start = PlayerPosition { x: i64::MAX - 3, y: i64::MIN + 3 };
    let out = step(start, dir(false, true, false, true));
    assert_eq!(out.x, i64::MAX);
    assert_eq!(out.y, i64::MIN);
}
