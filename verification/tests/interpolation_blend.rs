use matrix_rpg_net::interpolation::interpolated_position;
use matrix_rpg_net::interpolation::lerp_coord;
use matrix_rpg_net::interpolation::InterpolationState;
use matrix_rpg_net::interpolation::Snapshot;
use matrix_rpg_net::protocol::PlayerPosition;

fn snap(tick: u64, x: i64, y: i64) -> Snapshot {
    Snapshot { tick, position: PlayerPosition { x, y } }
}

#[test]
fn lerp_hits_exact_fractions() {
    assert_eq!(lerp_coord(0, 100, 0, 4), 0);
    assert_eq!(lerp_coord(0, 100, 1, 4), 25);
    assert_eq!(lerp_coord(0, 100, 4, 4), 100);
    // Rounded toward the older value, and exact on a descending segment.
    assert_eq!(lerp_coord(0, 10, 1, 3), 3);
    assert_eq!(lerp_coord(10, -10, 1, 2), 0);
    assert_eq!(lerp_coord(-100, -200, 1, 4), -125);
}

#[test]
fn displayed_position_never_leaves_the_segment() {
    for num in 0..=8u64 {
        let v = lerp_coord(-40, 40, num, 8);
        assert!((-40..=40).contains(&v));
    }
}

#[test]
fn blend_clamps_outside_the_window() {
    let older = snap(10, 0, 0);
    let newer = snap(20, 100, -100);
    let before = interpolated_position(older, newer, 5);
    assert_eq!((before.x, before.y), (0, 0));
    let after = interpolated_position(older, newer, 25);
    assert_eq!((after.x, after.y), (100, -100));
    let mid = interpolated_position(older, newer, 15);
    assert_eq!((mid.x, mid.y), (50, -50));
}

#[test]
fn display_samples_one_delay_behind_the_present() {
    // Delay of 3 ticks: at tick 16 the window [10, 20] is sampled at
    // render tick 13, 30% of the way across.
    let state = InterpolationState::new(snap(10, 0, 0));
    let mut state = state;
    state.push(snap(20, 100, -100));
    let shown = state.display(16);
    assert_eq!((shown.x, shown.y), (30, -30));
    // Far past the window the newest snapshot shows; at or before the
    // older one, the older.
    let late = state.display(30);
    assert_eq!((late.x, late.y), (100, -100));
    let early = state.display(12);
    assert_eq!((early.x, early.y), (0, 0));
}

#[test]
fn snapshot_window_keeps_the_two_most_recent() {
    let mut state = InterpolationState::new(snap(1, 0, 0));
    state.push(snap(2, 10, 0));
    state.push(snap(3, 20, 0));
    assert_eq!(state.older.tick, 2);
    assert_eq!(state.newer.tick, 3);
    // A stale snapshot is dropped.
    state.push(snap(2, 999, 999));
    assert_eq!(state.older.tick, 2);
    assert_eq!(state.newer.tick, 3);
    assert_eq!(state.newer.position.x, 20);
}
