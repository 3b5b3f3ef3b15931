//! Configuration surface consumed by the core: timing shared by both
//! roles, per-role transport settings, and the shared handshake secrets.
//!
//! All of it is plain data loaded by an external collaborator and passed
//! in at construction time. Addresses are carried as four octets and a
//! port so the core can state exactly what it hands the transport layer.

use vstd::prelude::*;

verus! {

/// Microseconds per simulation tick at the fixed 64 Hz rate.
pub const TICK_DURATION_US: u64 = 15625;

/// Milliseconds between two authoritative replication sends.
pub const SERVER_SEND_INTERVAL_MS: u64 = 40;

/// Timing shared by client and server.
pub struct SharedConfig {
    /// Milliseconds between client sends; zero means every tick.
    pub client_send_interval_ms: u64,
    /// Milliseconds between server replication sends.
    pub server_send_interval_ms: u64,
    /// Microseconds per tick.
    pub tick_duration_us: u64,
}

/// The timing both roles run with: clients send every tick, the server
/// replicates every 40 ms, and the simulation steps 64 times a second.
pub fn shared_config() -> (r: SharedConfig)
    ensures
        r.client_send_interval_ms == 0,
        r.server_send_interval_ms == SERVER_SEND_INTERVAL_MS,
        r.tick_duration_us == TICK_DURATION_US,
{
    SharedConfig {
        client_send_interval_ms: 0,
        server_send_interval_ms: SERVER_SEND_INTERVAL_MS,
        tick_duration_us: TICK_DURATION_US,
    }
}

/// Which transport backend a client uses.
#[derive(Clone, Copy, Debug, PartialEq, Eq, Structural)]
pub enum ClientTransports {
    Udp,
    WebSocket,
}

/// Which transport backends a server listens on.
#[derive(Clone, Copy, Debug, PartialEq, Eq, Structural)]
pub enum ServerTransports {
    Udp { local_port: u16 },
    WebSocket { local_port: u16 },
}

/// An endpoint the transport layer is asked to open. The in-process
/// loopback pair carries no address at all.
#[derive(Clone, Copy, Debug)]
pub enum TransportPlan {
    UdpServer { local_port: u16 },
    WebSocketServer { local_port: u16 },
    UdpClient { local_port: u16 },
    WebSocketClient { server_addr: [u8; 4], server_port: u16 },
    LocalChannel,
}

/// Server-role settings.
pub struct ServerSettings {
    /// If true, disable any rendering-related plumbing.
    pub headless: bool,
    /// If true, enable the diagnostics overlay.
    pub inspector: bool,
    /// Which transports to listen on.
    pub transport: Vec<ServerTransports>,
}

/// Client-role settings.
pub struct ClientSettings {
    /// If true, enable the diagnostics overlay.
    pub inspector: bool,
    /// The client's identity.
    pub client_id: u64,
    /// The local port to bind.
    pub client_port: u16,
    /// The server's address, as four octets.
    pub server_addr: [u8; 4],
    /// The server's port.
    pub server_port: u16,
    /// Which transport to use.
    pub transport: ClientTransports,
}

/// Identity of the protocol and the pre-shared handshake secret, common
/// to both roles.
pub struct SharedSettings {
    /// An id identifying the protocol version.
    pub protocol_id: u64,
    /// A 32-byte pre-shared key that authenticates the handshake.
    pub private_key: [u8; 32],
}

/// Everything the core is configured with.
pub struct Settings {
    pub server: ServerSettings,
    pub client: ClientSettings,
    pub shared: SharedSettings,
}

/// The mapping from one server transport setting to the endpoint plan.
pub open spec fn spec_server_plan(t: ServerTransports) -> TransportPlan {
    match t {
        ServerTransports::Udp { local_port } => TransportPlan::UdpServer { local_port },
        ServerTransports::WebSocket { local_port } => TransportPlan::WebSocketServer { local_port },
    }
}

/// Turn the server's transport settings into the endpoints to open, one
/// for one, in order.
pub fn get_server_transport_configs(settings: &Vec<ServerTransports>) -> (r: Vec<TransportPlan>)
    ensures
        r@.len() == settings@.len(),
        forall|i: int| 0 <= i < settings@.len() ==> r@[i] == spec_server_plan(#[trigger] settings@[i]),
{
    let mut r: Vec<TransportPlan> = Vec::new();
    let mut i: usize = 0;
    while i < settings.len()
        invariant
            i <= settings@.len(),
            r@.len() == i,
            forall|j: int| 0 <= j < i ==> r@[j] == spec_server_plan(#[trigger] settings@[j]),
        decreases settings@.len() - i,
    {
        let plan = match settings[i] {
            ServerTransports::Udp { local_port } => TransportPlan::UdpServer { local_port },
            ServerTransports::WebSocket { local_port } => TransportPlan::WebSocketServer {
                local_port,
            },
        };
        r.push(plan);
        i = i + 1;
    }
    r
}

/// Turn a client's settings into the one endpoint plan it connects
/// through.
pub fn get_client_transport_config(settings: &ClientSettings) -> (r: TransportPlan)
    ensures
        settings.transport is Udp ==> r == (TransportPlan::UdpClient {
            local_port: settings.client_port,
        }),
        settings.transport is WebSocket ==> r == (TransportPlan::WebSocketClient {
            server_addr: settings.server_addr,
            server_port: settings.server_port,
        }),
{
    match settings.transport {
        ClientTransports::Udp => TransportPlan::UdpClient { local_port: settings.client_port },
        ClientTransports::WebSocket => TransportPlan::WebSocketClient {
            server_addr: settings.server_addr,
            server_port: settings.server_port,
        },
    }
}

} // verus!
