//! Connection lifecycle: the pre-shared-key handshake, the client's
//! connect state machine with timeout and bounded retry, and the server's
//! silence detection.
//!
//! A connect request carries the claimed identity, the shared secret and
//! the protocol id; the server accepts exactly when secret and protocol id
//! match its configuration. A pending attempt that hears nothing within
//! the timeout is retried a bounded number of times and then surfaced as a
//! failure: there is no unbounded wait anywhere.

use vstd::prelude::*;

use crate::config::SharedSettings;

verus! {

/// What a client sends to open a session.
pub struct ConnectRequest {
    /// The identity the client claims for this session.
    pub client_id: u64,
    /// The protocol version the client speaks.
    pub protocol_id: u64,
    /// The pre-shared key that authenticates the claim.
    pub secret: [u8; 32],
}

/// The server's answer to a connect request.
#[derive(Clone, Copy, Debug, PartialEq, Eq, Structural)]
pub enum HandshakeVerdict {
    /// Secret and protocol id matched; the identity is bound.
    Accepted { client_id: u64 },
    /// Bad secret or protocol mismatch; the attempt is rejected.
    Rejected,
}

/// A request is valid exactly when its protocol id and secret equal the
/// server's configuration.
pub open spec fn valid_request(req: ConnectRequest, settings: SharedSettings) -> bool {
    req.protocol_id == settings.protocol_id && req.secret@ == settings.private_key@
}

/// Whether two 32-byte keys hold the same bytes.
fn keys_equal(a: &[u8; 32], b: &[u8; 32]) -> (r: bool)
    ensures
        r == (a@ == b@),
{
    let mut i: usize = 0;
    while i < 32
        invariant
            i <= 32,
            a@.len() == 32,
            b@.len() == 32,
            forall|j: int| 0 <= j < i ==> a@[j] == b@[j],
        decreases 32 - i,
    {
        if a[i] != b[i] {
            return false;
        }
        i = i + 1;
    }
    proof {
        assert(a@ =~= b@);
    }
    true
}

/// Decide a connect request: accept, binding the claimed identity, if and
/// only if the secret and the protocol id both match the configuration.
pub fn validate_connect(req: &ConnectRequest, settings: &SharedSettings) -> (r: HandshakeVerdict)
    ensures
        r is Accepted <==> valid_request(*req, *settings),
        r matches HandshakeVerdict::Accepted { client_id } ==> client_id == req.client_id,
{
    if req.protocol_id == settings.protocol_id && keys_equal(&req.secret, &settings.private_key) {
        HandshakeVerdict::Accepted { client_id: req.client_id }
    } else {
        HandshakeVerdict::Rejected
    }
}

/// Build the connect request a client opens its session with, from its
/// generated identity and the shared configuration.
pub fn client_connect_request(client_id: u64, settings: &SharedSettings) -> (r: ConnectRequest)
    ensures
        r.client_id == client_id,
        r.protocol_id == settings.protocol_id,
        r.secret@ == settings.private_key@,
        valid_request(r, *settings),
{
    ConnectRequest { client_id, protocol_id: settings.protocol_id, secret: settings.private_key }
}

/// A request built from the same shared settings the server validates
/// against is always accepted: a well-configured client cannot fail the
/// handshake, and a wrong secret or protocol id is always rejected.
pub proof fn lemma_handshake_soundness(req: ConnectRequest, settings: SharedSettings)
    ensures
        req.protocol_id == settings.protocol_id && req.secret@ == settings.private_key@
            ==> valid_request(req, settings),
        req.protocol_id != settings.protocol_id ==> !valid_request(req, settings),
        req.secret@ != settings.private_key@ ==> !valid_request(req, settings),
{
}

/// The client's view of its session.
#[derive(Clone, Copy, Debug, PartialEq, Eq, Structural)]
pub enum ConnectionState {
    Disconnected,
    Connecting { ticks_waiting: u64, retries: u64 },
    Connected { client_id: u64 },
}

/// What the surrounding loop must do after a lifecycle step.
#[derive(Clone, Copy, Debug, PartialEq, Eq, Structural)]
pub enum ConnectAction {
    /// Nothing to send this tick.
    Idle,
    /// (Re-)send the connect request now.
    SendRequest,
    /// Give up and surface a connection failure.
    Fail,
}

/// Ticks a pending connect attempt waits before it is retried.
pub const CONNECT_TIMEOUT_TICKS: u64 = 64;

/// How many times a connect attempt is retried before it fails.
pub const CONNECT_MAX_RETRIES: u64 = 4;

/// The client side of the connection lifecycle.
pub struct ClientConnection {
    pub state: ConnectionState,
}

impl ClientConnection {
    pub fn new() -> (r: ClientConnection)
        ensures
            r.state is Disconnected,
    {
        ClientConnection { state: ConnectionState::Disconnected }
    }

    /// Issue a connect attempt: only a disconnected client may start one,
    /// and the request goes out at once.
    pub fn begin_connect(&mut self) -> (r: ConnectAction)
        requires
            old(self).state is Disconnected,
        ensures
            final(self).state == (ConnectionState::Connecting { ticks_waiting: 0, retries: 0 }),
            r is SendRequest,
    {
        self.state = ConnectionState::Connecting { ticks_waiting: 0, retries: 0 };
        ConnectAction::SendRequest
    }

    /// One tick of the pending attempt: wait, retry on timeout while
    /// retries remain, otherwise fail and fall back to disconnected.
    pub fn on_tick(&mut self) -> (r: ConnectAction)
        ensures
            old(self).state matches ConnectionState::Connecting { ticks_waiting, retries } ==> {
                &&& ticks_waiting + 1 < CONNECT_TIMEOUT_TICKS ==> final(self).state == (
                ConnectionState::Connecting { ticks_waiting: (ticks_waiting + 1) as u64, retries })
                    && r is Idle
                &&& (ticks_waiting + 1 >= CONNECT_TIMEOUT_TICKS && retries < CONNECT_MAX_RETRIES)
                    ==> final(self).state == (ConnectionState::Connecting {
                    ticks_waiting: 0,
                    retries: (retries + 1) as u64,
                }) && r is SendRequest
                &&& (ticks_waiting + 1 >= CONNECT_TIMEOUT_TICKS && retries >= CONNECT_MAX_RETRIES)
                    ==> final(self).state is Disconnected && r is Fail
            },
            !(old(self).state is Connecting) ==> final(self).state == old(self).state && r is Idle,
    {
        match self.state {
            ConnectionState::Connecting { ticks_waiting, retries } => {
                let waited = if ticks_waiting < u64::MAX {
                    ticks_waiting + 1
                } else {
                    ticks_waiting
                };
                if waited < CONNECT_TIMEOUT_TICKS {
                    self.state = ConnectionState::Connecting { ticks_waiting: waited, retries };
                    ConnectAction::Idle
                } else if retries < CONNECT_MAX_RETRIES {
                    self.state = ConnectionState::Connecting {
                        ticks_waiting: 0,
                        retries: retries + 1,
                    };
                    ConnectAction::SendRequest
                } else {
                    self.state = ConnectionState::Disconnected;
                    ConnectAction::Fail
                }
            },
            _ => ConnectAction::Idle,
        }
    }

    /// The server accepted: a pending attempt becomes a connected session
    /// bound to the assigned identity; an answer in any other state is
    /// stale and dropped.
    pub fn on_accepted(&mut self, client_id: u64)
        ensures
            old(self).state is Connecting ==> final(self).state == (ConnectionState::Connected {
                client_id,
            }),
            !(old(self).state is Connecting) ==> final(self).state == old(self).state,
    {
        if let ConnectionState::Connecting { .. } = self.state {
            self.state = ConnectionState::Connected { client_id };
        }
    }

    /// The server rejected the handshake: the attempt surfaces as a
    /// failure instead of retrying forever.
    pub fn on_rejected(&mut self) -> (r: ConnectAction)
        ensures
            old(self).state is Connecting ==> final(self).state is Disconnected && r is Fail,
            !(old(self).state is Connecting) ==> final(self).state == old(self).state && r is Idle,
    {
        if let ConnectionState::Connecting { .. } = self.state {
            self.state = ConnectionState::Disconnected;
            ConnectAction::Fail
        } else {
            ConnectAction::Idle
        }
    }

    /// Tear the session down; the caller resets all local prediction
    /// state alongside.
    pub fn disconnect(&mut self)
        ensures
            final(self).state is Disconnected,
    {
        self.state = ConnectionState::Disconnected;
    }
}

/// Server-side silence detection: a peer last heard from at
/// `last_heard_tick` is considered gone at `now_tick` once the silence
/// reaches `timeout_ticks`.
pub fn silence_exceeded(last_heard_tick: u64, now_tick: u64, timeout_ticks: u64) -> (r: bool)
    requires
        last_heard_tick <= now_tick,
    ensures
        r == (now_tick - last_heard_tick >= timeout_ticks),
{
    now_tick - last_heard_tick >= timeout_ticks
}

} // verus!
