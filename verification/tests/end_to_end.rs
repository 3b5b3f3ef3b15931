use matrix_rpg_net::client::ClientWorld;
use matrix_rpg_net::codec::decode;
use matrix_rpg_net::codec::decode_connect;
use matrix_rpg_net::codec::encode;
use matrix_rpg_net::codec::encode_connect;
use matrix_rpg_net::codec::WireMessage;
use matrix_rpg_net::config::SharedSettings;
use matrix_rpg_net::connection::client_connect_request;
use matrix_rpg_net::connection::validate_connect;
use matrix_rpg_net::connection::ClientConnection;
use matrix_rpg_net::connection::HandshakeVerdict;
use matrix_rpg_net::protocol::Direction;
use matrix_rpg_net::protocol::Inputs;
use matrix_rpg_net::protocol::MOVE_SPEED;
use matrix_rpg_net::server::PeerReplication;
use matrix_rpg_net::transport::loopback_pair;
use matrix_rpg_net::transport::ConditionedLink;
use matrix_rpg_net::world::InputConsumption;
use matrix_rpg_net::world::ServerWorld;

fn up() -> Inputs {
    Inputs::Direction(Direction { up: true, down: false, left: false, right: false })
}

/// A client connects over the loopback transport, spawns, and sends
/// "move up" for 10 consecutive ticks with zero simulated loss; the
/// server ends at (0, 10 * MOVE_SPEED) and the client's prediction
/// matches it exactly at every intermediate tick.
#[test]
fn ten_move_up_ticks_end_to_end() {
    let settings = SharedSettings { protocol_id: 1, private_key: [9u8; 32] };
    let (client_end, server_end) = loopback_pair();
    // Zero loss, zero latency: every packet is visible the tick it is
    // pumped.
    let mut client_link = ConditionedLink::new(client_end, 1, 0, 0, 0);
    let mut server_link = ConditionedLink::new(server_end, 2, 0, 0, 0);

    // Handshake.
    let client_id = 42u64;
    let mut conn = ClientConnection::new();
    conn.begin_connect();
    client_link.send(encode_connect(&client_connect_request(client_id, &settings)));
    server_link.pump(0, 16);
    let raw = server_link.poll(0).expect("the connect frame must arrive with zero loss");
    let req = decode_connect(&raw).expect("the connect frame must decode");
    let verdict = validate_connect(&req, &settings);
    let bound = match verdict {
        HandshakeVerdict::Accepted { client_id } => client_id,
        HandshakeVerdict::Rejected => panic!("matching secrets must be accepted"),
    };
    server_link.send(encode(&WireMessage::AcceptFrame { client_id: bound }));
    client_link.pump(0, 16);
    let raw = client_link.poll(0).expect("the acceptance must arrive");
    match decode(&raw) {
        Some(WireMessage::AcceptFrame { client_id }) => conn.on_accepted(client_id),
        _ => panic!("expected the acceptance frame"),
    }

    // Simulation: the client pre-spawns, the server spawns on the input.
    let mut client = ClientWorld::new(client_id);
    client.request_spawn();
    let mut server = ServerWorld::new();
    let mut replication = PeerReplication::new(client_id);
    let mut consumption = InputConsumption::new();
    // The client leads the server by one tick, so each tagged input
    // arrives exactly when the server runs that tick.
    server.advance_tick();
    client_link.send(encode(&WireMessage::InputFrame { tick: 1, input: Inputs::Spawn }));

    for step in 1..=10u64 {
        let tick = step + 1;
        // Client side: capture, predict, send — twice, as the redundant
        // resend window would; the server must apply the tick once.
        client.capture_input(tick, up());
        client_link.send(encode(&WireMessage::InputFrame { tick, input: up() }));
        client_link.send(encode(&WireMessage::InputFrame { tick, input: up() }));

        // Server side: run the tick the inputs were tagged for, consume
        // each tick at most once, and integrate.
        server.advance_tick();
        server_link.pump(tick, 16);
        while let Some(raw) = server_link.poll(tick) {
            match decode(&raw) {
                Some(WireMessage::InputFrame { tick: tagged, input }) => {
                    if consumption.consume(tagged) {
                        server.handle_input(client_id, &input);
                    }
                }
                _ => panic!("only input frames travel client to server here"),
            }
        }

        // Replication back, and reconciliation on the client.
        for record in replication.collect_records(&server) {
            server_link.send(encode(&record));
        }
        client_link.pump(tick, 16);
        while let Some(raw) = client_link.poll(tick) {
            match decode(&raw) {
                Some(WireMessage::CreationRecord { owner, tick, position }) => {
                    client.on_creation_record(owner, tick, position)
                }
                Some(WireMessage::SnapshotRecord { owner, tick, position }) => {
                    client.on_snapshot(owner, tick, position)
                }
                _ => panic!("only replication records travel server to client here"),
            }
        }

        // With zero loss, prediction matches authority at every tick,
        // and the duplicate sends were applied exactly once.
        let predicted = client.local.as_ref().unwrap().predicted;
        assert_eq!(predicted.x, server.players[0].position.x);
        assert_eq!(predicted.y, server.players[0].position.y);
        assert_eq!(predicted.y, step as i64 * MOVE_SPEED);
    }

    assert_eq!(server.players[0].position.x, 0);
    assert_eq!(server.players[0].position.y, 10 * MOVE_SPEED);
    assert!(client.local_confirmed);
    assert!(matches!(
        conn.state,
        matrix_rpg_net::connection::ConnectionState::Connected { client_id: 42 }
    ));
}

/// Disconnection tears the entity down everywhere within one
/// replication interval.
#[test]
fn disconnect_cleans_up_every_peer() {
    let mut server = ServerWorld::new();
    server.apply_spawn(1);
    server.apply_spawn(2);
    let mut replication = PeerReplication::new(2);
    let mut observer = ClientWorld::new(2);
    for record in replication.collect_records(&server) {
        match record {
            WireMessage::CreationRecord { owner, tick, position } => {
                observer.on_creation_record(owner, tick, position)
            }
            WireMessage::SnapshotRecord { owner, tick, position } => {
                observer.on_snapshot(owner, tick, position)
            }
            _ => {}
        }
    }
    assert_eq!(observer.remotes.len(), 1);

    // Client 1's connection is torn down.
    server.remove_owned(1);
    let record = replication.on_despawn(1, server.tick);
    if let WireMessage::DespawnRecord { owner, .. } = record {
        observer.on_despawn(owner);
    }
    assert!(!server.players.iter().any(|e| e.id.0 == 1));
    assert_eq!(observer.remotes.len(), 0);
}
