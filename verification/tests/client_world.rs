use matrix_rpg_net::client::input_from_keys;
use matrix_rpg_net::client::ClientWorld;
use matrix_rpg_net::protocol::Direction;
use matrix_rpg_net::protocol::Inputs;
use matrix_rpg_net::protocol::PlayerPosition;
use matrix_rpg_net::protocol::MOVE_SPEED;

fn up() -> Inputs {
    Inputs::Direction(Direction { up: true, down: false, left: false, right: false })
}

#[test]
fn keys_map_to_inputs_with_direction_priority() {
    assert_eq!(
        input_from_keys(true, false, false, true, true),
        Inputs::Direction(Direction { up: true, down: false, left: false, right: true })
    );
    assert_eq!(input_from_keys(false, false, false, false, true), Inputs::Spawn);
    assert_eq!(input_from_keys(false, false, false, false, false), Inputs::NoInput);
}

#[test]
fn placeholder_spawn_is_idempotent() {
    let mut world = ClientWorld::new(7);
    world.request_spawn();
    assert!(world.local.is_some());
    world.capture_input(1, up());
    world.request_spawn();
    let local = world.local.as_ref().unwrap();
    assert_eq!(local.buffer.len(), 1);
    assert_eq!(local.predicted.y, MOVE_SPEED);
}

#[test]
fn creation_record_merges_into_the_placeholder() {
    let mut world = ClientWorld::new(7);
    world.request_spawn();
    world.capture_input(1, up());
    world.on_creation_record(7, 1, PlayerPosition { x: 0, y: 0 });
    // No duplicate: the placeholder keeps its prediction role and buffer.
    assert!(world.local_confirmed);
    assert_eq!(world.remotes.len(), 0);
    let local = world.local.as_ref().unwrap();
    assert_eq!(local.buffer.len(), 1);
    assert_eq!(local.predicted.y, MOVE_SPEED);
}

#[test]
fn foreign_creation_adds_one_interpolated_entity() {
    let mut world = ClientWorld::new(7);
    world.on_creation_record(9, 4, PlayerPosition { x: 5, y: 5 });
    assert_eq!(world.remotes.len(), 1);
    assert_eq!(world.remotes[0].id.0, 9);
    // A duplicate creation record is dropped.
    world.on_creation_record(9, 5, PlayerPosition { x: 6, y: 6 });
    assert_eq!(world.remotes.len(), 1);
}

#[test]
fn snapshots_route_to_the_right_entity() {
    let mut world = ClientWorld::new(7);
    world.request_spawn();
    world.capture_input(1, up());
    world.capture_input(2, up());
    world.on_creation_record(9, 0, PlayerPosition { x: 0, y: 0 });
    // The local entity reconciles: tick 1 confirmed at a diverged value.
    world.on_snapshot(7, 1, PlayerPosition { x: 100, y: 0 });
    let local = world.local.as_ref().unwrap();
    assert_eq!(local.buffer.len(), 1);
    assert_eq!(local.predicted.x, 100);
    assert_eq!(local.predicted.y, MOVE_SPEED);
    // A remote entity shifts its interpolation window.
    world.on_snapshot(9, 3, PlayerPosition { x: 30, y: 0 });
    assert_eq!(world.remotes[0].interp.newer.tick, 3);
    assert_eq!(world.remotes[0].interp.newer.position.x, 30);
    // A record about an unknown identity is dropped, not fatal.
    world.on_snapshot(55, 3, PlayerPosition { x: 1, y: 1 });
    assert_eq!(world.remotes.len(), 1);
}

#[test]
fn despawn_and_disconnect_clean_up() {
    let mut world = ClientWorld::new(7);
    world.request_spawn();
    world.on_creation_record(9, 0, PlayerPosition { x: 0, y: 0 });
    world.on_despawn(9);
    assert_eq!(world.remotes.len(), 0);
    world.on_despawn(7);
    assert!(world.local.is_none());
    world.request_spawn();
    world.on_creation_record(9, 0, PlayerPosition { x: 0, y: 0 });
    world.on_disconnected();
    assert!(world.local.is_none());
    assert_eq!(world.remotes.len(), 0);
}
