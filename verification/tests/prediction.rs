use matrix_rpg_net::prediction::PredictionState;
use matrix_rpg_net::protocol::Direction;
use matrix_rpg_net::protocol::Inputs;
use matrix_rpg_net::protocol::PlayerPosition;
use matrix_rpg_net::protocol::MOVE_SPEED;
use matrix_rpg_net::world::ServerWorld;

fn up() -> Inputs {
    Inputs::Direction(Direction { up: true, down: false, left: false, right: false })
}

fn right() -> Inputs {
    Inputs::Direction(Direction { up: false, down: false, left: false, right: true })
}

#[test]
fn prediction_applies_input_immediately() {
    let mut state = PredictionState::new(7);
    state.predict(1, up());
    assert_eq!(state.predicted.y, MOVE_SPEED);
    assert_eq!(state.buffer.len(), 1);
    assert_eq!(state.buffer[0].tick, 1);
}

#[test]
fn reconcile_replays_unconfirmed_inputs_on_top_of_authority() {
    let mut state = PredictionState::new(7);
    for tick in 1..=5u64 {
        state.predict(tick, right());
    }
    assert_eq!(state.predicted.x, 5 * MOVE_SPEED);
    // The server confirms tick 3 at a diverged position.
    let server = PlayerPosition { x: 2 * MOVE_SPEED, y: 0 };
    state.reconcile(3, server);
    // Inputs for ticks 4 and 5 replay on top of the authoritative value.
    assert_eq!(state.buffer.len(), 2);
    assert_eq!(state.buffer[0].tick, 4);
    assert_eq!(state.buffer[1].tick, 5);
    assert_eq!(state.predicted.x, 2 * MOVE_SPEED + 2 * MOVE_SPEED);
    assert_eq!(state.predicted.y, 0);
}

#[test]
fn reconcile_with_everything_confirmed_snaps_to_authority() {
    let mut state = PredictionState::new(7);
    state.predict(1, right());
    state.predict(2, right());
    let server = PlayerPosition { x: 123, y: 456 };
    state.reconcile(2, server);
    assert_eq!(state.buffer.len(), 0);
    assert_eq!(state.predicted.x, 123);
    assert_eq!(state.predicted.y, 456);
}

#[test]
fn recent_inputs_returns_the_newest_window() {
    let mut state = PredictionState::new(7);
    for tick in 1..=6u64 {
        state.predict(tick, up());
    }
    let window = state.recent_inputs(3);
    assert_eq!(window.len(), 3);
    assert_eq!(window[0].tick, 4);
    assert_eq!(window[2].tick, 6);
    let all = state.recent_inputs(100);
    assert_eq!(all.len(), 6);
}

#[test]
fn ten_uniform_ticks_match_on_client_and_server() {
    // Zero loss: the client's prediction and the server's authority agree
    // at every intermediate tick, and both end at (0, 10 * MOVE_SPEED).
    let mut client = PredictionState::new(9);
    let mut server = ServerWorld::new();
    server.apply_spawn(9);
    for tick in 1..=10u64 {
        client.predict(tick, up());
        server.handle_input(9, &up());
        assert_eq!(client.predicted.x, server.players[0].position.x);
        assert_eq!(client.predicted.y, server.players[0].position.y);
    }
    assert_eq!(server.players[0].position.x, 0);
    assert_eq!(server.players[0].position.y, 10 * MOVE_SPEED);
}
