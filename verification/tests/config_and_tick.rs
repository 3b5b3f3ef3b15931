use matrix_rpg_net::config::get_client_transport_config;
use matrix_rpg_net::config::get_server_transport_configs;
use matrix_rpg_net::config::shared_config;
use matrix_rpg_net::config::ClientSettings;
use matrix_rpg_net::config::ClientTransports;
use matrix_rpg_net::config::ServerTransports;
use matrix_rpg_net::config::TransportPlan;
use matrix_rpg_net::identity::generate_client_id;
use matrix_rpg_net::tick::converge_lead;
use matrix_rpg_net::tick::target_lead;
use matrix_rpg_net::tick::TickClock;

#[test]
fn shared_timing_is_sixty_four_hertz() {
    let cfg = shared_config();
    assert_eq!(cfg.tick_duration_us, 15625);
    assert_eq!(cfg.server_send_interval_ms, 40);
    assert_eq!(cfg.client_send_interval_ms, 0);
}

#[test]
fn server_transports_map_one_for_one() {
    let plans = get_server_transport_configs(&vec![
        ServerTransports::Udp { local_port: 5000 },
        ServerTransports::WebSocket { local_port: 5001 },
    ]);
    assert_eq!(plans.len(), 2);
    assert!(matches!(plans[0], TransportPlan::UdpServer { local_port: 5000 }));
    assert!(matches!(plans[1], TransportPlan::WebSocketServer { local_port: 5001 }));
}

#[test]
fn client_transport_follows_the_setting() {
    let mut settings = ClientSettings {
        inspector: false,
        client_id: 1,
        client_port: 4000,
        server_addr: [127, 0, 0, 1],
        server_port: 5000,
        transport: ClientTransports::Udp,
    };
    assert!(matches!(
        get_client_transport_config(&settings),
        TransportPlan::UdpClient { local_port: 4000 }
    ));
    settings.transport = ClientTransports::WebSocket;
    assert!(matches!(
        get_client_transport_config(&settings),
        TransportPlan::WebSocketClient { server_addr: [127, 0, 0, 1], server_port: 5000 }
    ));
}

#[test]
fn clock_counts_one_per_step() {
    let mut clock = TickClock::new();
    for _ in 0..64 {
        clock.advance();
    }
    assert_eq!(clock.tick, 64);
}

#[test]
fn lead_estimate_converges_and_stays() {
    let target = target_lead(13);
    assert_eq!(target, 8);
    let mut lead = 0u64;
    for _ in 0..64 {
        lead = converge_lead(lead, target);
    }
    assert_eq!(lead, target);
    assert_eq!(converge_lead(target, target), target);
    // From above it converges too, never overshooting.
    let mut high = 100u64;
    let mut last = high;
    for _ in 0..64 {
        high = converge_lead(high, target);
        assert!(high <= last && high >= target);
        last = high;
    }
    assert_eq!(high, target);
}

#[test]
fn generated_identity_drives_a_session() {
    let id = generate_client_id();
    let mut world = matrix_rpg_net::world::ServerWorld::new();
    world.apply_spawn(id);
    assert_eq!(world.players.len(), 1);
    assert_eq!(world.players[0].id.0, id);
}
