//! The binary wire format.
//!
//! Every frame starts with one kind byte; every per-tick payload carries
//! its tick number; multi-byte integers are little-endian. Decoding is
//! total: anything malformed decodes to nothing instead of failing.
//! Encoding and decoding are exact inverses, so what one peer sends is
//! precisely what the other reconstructs.

use vstd::prelude::*;

use vstd::bytes::lemma_auto_spec_u64_to_from_le_bytes;
use vstd::bytes::spec_u64_from_le_bytes;
use vstd::bytes::spec_u64_to_le_bytes;
use vstd::bytes::u64_from_le_bytes;
use vstd::bytes::u64_to_le_bytes;
use vstd::slice::slice_subrange;

use crate::connection::ConnectRequest;
use crate::protocol::Direction;
use crate::protocol::Inputs;
use crate::protocol::PlayerPosition;

verus! {

/// Frame kind markers, one per message shape.
pub const KIND_INPUT: u8 = 0;

pub const KIND_SNAPSHOT: u8 = 1;

pub const KIND_CREATION: u8 = 2;

pub const KIND_DESPAWN: u8 = 3;

pub const KIND_ACK: u8 = 4;

pub const KIND_CONNECT: u8 = 5;

pub const KIND_ACCEPT: u8 = 6;

pub const KIND_REJECT: u8 = 7;

/// Everything that travels between the peers, except the connect request
/// (which carries the pre-shared key and has its own encoder below).
pub enum WireMessage {
    /// One tick's input from a client.
    InputFrame { tick: u64, input: Inputs },
    /// An authoritative position of an entity, continuously re-sent.
    SnapshotRecord { tick: u64, owner: u64, position: PlayerPosition },
    /// Entity creation with its once-synced identity, sent exactly once.
    CreationRecord { tick: u64, owner: u64, position: PlayerPosition },
    /// Entity teardown.
    DespawnRecord { tick: u64, owner: u64 },
    /// Channel control: cumulative acknowledgement of a sequence number.
    ChannelAck { seq_no: u64 },
    /// The server accepted the handshake and bound this identity.
    AcceptFrame { client_id: u64 },
    /// The server rejected the handshake.
    RejectFrame,
}

/// The byte an input travels as: the low four bits are the four
/// direction flags, and the three non-direction inputs follow.
pub open spec fn input_code(input: Inputs) -> u8 {
    match input {
        Inputs::Direction(d) => ((if d.up {
            1int
        } else {
            0int
        }) + (if d.down {
            2int
        } else {
            0int
        }) + (if d.left {
            4int
        } else {
            0int
        }) + (if d.right {
            8int
        } else {
            0int
        })) as u8,
        Inputs::Spawn => 16,
        Inputs::Delete => 17,
        Inputs::NoInput => 18,
    }
}

/// The input a byte stands for, if any.
pub open spec fn code_input(b: u8) -> Option<Inputs> {
    if b < 16 {
        Some(
            Inputs::Direction(
                Direction {
                    up: b % 2 == 1,
                    down: b / 2 % 2 == 1,
                    left: b / 4 % 2 == 1,
                    right: b / 8 % 2 == 1,
                },
            ),
        )
    } else if b == 16 {
        Some(Inputs::Spawn)
    } else if b == 17 {
        Some(Inputs::Delete)
    } else if b == 18 {
        Some(Inputs::NoInput)
    } else {
        None
    }
}

/// The exact bytes a message is sent as.
pub open spec fn spec_encode(m: WireMessage) -> Seq<u8> {
    match m {
        WireMessage::InputFrame { tick, input } => seq![KIND_INPUT] + spec_u64_to_le_bytes(tick)
            + seq![input_code(input)],
        WireMessage::SnapshotRecord { tick, owner, position } => seq![KIND_SNAPSHOT]
            + spec_u64_to_le_bytes(tick) + spec_u64_to_le_bytes(owner) + spec_u64_to_le_bytes(
            position.x as u64,
        ) + spec_u64_to_le_bytes(position.y as u64),
        WireMessage::CreationRecord { tick, owner, position } => seq![KIND_CREATION]
            + spec_u64_to_le_bytes(tick) + spec_u64_to_le_bytes(owner) + spec_u64_to_le_bytes(
            position.x as u64,
        ) + spec_u64_to_le_bytes(position.y as u64),
        WireMessage::DespawnRecord { tick, owner } => seq![KIND_DESPAWN] + spec_u64_to_le_bytes(
            tick,
        ) + spec_u64_to_le_bytes(owner),
        WireMessage::ChannelAck { seq_no } => seq![KIND_ACK] + spec_u64_to_le_bytes(seq_no),
        WireMessage::AcceptFrame { client_id } => seq![KIND_ACCEPT] + spec_u64_to_le_bytes(
            client_id,
        ),
        WireMessage::RejectFrame => seq![KIND_REJECT],
    }
}

/// The message a byte string stands for; anything malformed stands for
/// nothing. A connect request (kind 5) has its own decoder.
pub open spec fn spec_decode(s: Seq<u8>) -> Option<WireMessage> {
    if s.len() < 1 {
        None
    } else {
        let kind = s[0];
        if kind == KIND_INPUT {
            if s.len() == 10 {
                match code_input(s[9]) {
                    Some(input) => Some(
                        WireMessage::InputFrame {
                            tick: spec_u64_from_le_bytes(s.subrange(1, 9)),
                            input,
                        },
                    ),
                    None => None,
                }
            } else {
                None
            }
        } else if kind == KIND_SNAPSHOT || kind == KIND_CREATION {
            if s.len() == 33 {
                let tick = spec_u64_from_le_bytes(s.subrange(1, 9));
                let owner = spec_u64_from_le_bytes(s.subrange(9, 17));
                let position = PlayerPosition {
                    x: spec_u64_from_le_bytes(s.subrange(17, 25)) as i64,
                    y: spec_u64_from_le_bytes(s.subrange(25, 33)) as i64,
                };
                if kind == KIND_SNAPSHOT {
                    Some(WireMessage::SnapshotRecord { tick, owner, position })
                } else {
                    Some(WireMessage::CreationRecord { tick, owner, position })
                }
            } else {
                None
            }
        } else if kind == KIND_DESPAWN {
            if s.len() == 17 {
                Some(
                    WireMessage::DespawnRecord {
                        tick: spec_u64_from_le_bytes(s.subrange(1, 9)),
                        owner: spec_u64_from_le_bytes(s.subrange(9, 17)),
                    },
                )
            } else {
                None
            }
        } else if kind == KIND_ACK {
            if s.len() == 9 {
                Some(WireMessage::ChannelAck { seq_no: spec_u64_from_le_bytes(s.subrange(1, 9)) })
            } else {
                None
            }
        } else if kind == KIND_ACCEPT {
            if s.len() == 9 {
                Some(
                    WireMessage::AcceptFrame {
                        client_id: spec_u64_from_le_bytes(s.subrange(1, 9)),
                    },
                )
            } else {
                None
            }
        } else if kind == KIND_REJECT {
            if s.len() == 1 {
                Some(WireMessage::RejectFrame)
            } else {
                None
            }
        } else {
            None
        }
    }
}

/// Turn a signed coordinate into its wire form.
fn coord_to_wire(x: i64) -> (r: u64)
    ensures
        r == x as u64,
{
    #[verifier::truncate]
    (x as u64)
}

/// Recover a signed coordinate from its wire form.
fn coord_from_wire(v: u64) -> (r: i64)
    ensures
        r == v as i64,
{
    #[verifier::truncate]
    (v as i64)
}

/// A coordinate survives the trip through its wire form.
pub proof fn lemma_coord_roundtrip(x: i64)
    ensures
        (x as u64) as i64 == x,
{
    assert((x as u64) as i64 == x) by (bit_vector);
}

/// The byte of an input always decodes back to that input.
pub proof fn lemma_input_code_roundtrip(input: Inputs)
    ensures
        code_input(input_code(input)) == Some(input),
{
}

/// Encode the input byte.
fn input_code_exec(input: &Inputs) -> (r: u8)
    ensures
        r == input_code(*input),
{
    match input {
        Inputs::Direction(d) => {
            let mut b: u8 = 0;
            if d.up {
                b = b + 1;
            }
            if d.down {
                b = b + 2;
            }
            if d.left {
                b = b + 4;
            }
            if d.right {
                b = b + 8;
            }
            b
        },
        Inputs::Spawn => 16,
        Inputs::Delete => 17,
        Inputs::NoInput => 18,
    }
}

/// Decode the input byte.
fn code_input_exec(b: u8) -> (r: Option<Inputs>)
    ensures
        r == code_input(b),
{
    if b < 16 {
        Some(
            Inputs::Direction(
                Direction {
                    up: b % 2 == 1,
                    down: b / 2 % 2 == 1,
                    left: b / 4 % 2 == 1,
                    right: b / 8 % 2 == 1,
                },
            ),
        )
    } else if b == 16 {
        Some(Inputs::Spawn)
    } else if b == 17 {
        Some(Inputs::Delete)
    } else if b == 18 {
        Some(Inputs::NoInput)
    } else {
        None
    }
}

/// Append the little-endian bytes of one integer.
fn push_u64(out: &mut Vec<u8>, v: u64)
    ensures
        final(out)@ =~= old(out)@ + spec_u64_to_le_bytes(v),
{
    let mut bytes = u64_to_le_bytes(v);
    out.append(&mut bytes);
}

/// Encode one message into the exact bytes `spec_encode` names.
pub fn encode(m: &WireMessage) -> (r: Vec<u8>)
    ensures
        r@ == spec_encode(*m),
{
    let mut out: Vec<u8> = Vec::new();
    match m {
        WireMessage::InputFrame { tick, input } => {
            out.push(KIND_INPUT);
            push_u64(&mut out, *tick);
            out.push(input_code_exec(input));
            proof {
                assert(out@ =~= spec_encode(*m));
            }
        },
        WireMessage::SnapshotRecord { tick, owner, position } => {
            out.push(KIND_SNAPSHOT);
            push_u64(&mut out, *tick);
            push_u64(&mut out, *owner);
            push_u64(&mut out, coord_to_wire(position.x));
            push_u64(&mut out, coord_to_wire(position.y));
            proof {
                assert(out@ =~= spec_encode(*m));
            }
        },
        WireMessage::CreationRecord { tick, owner, position } => {
            out.push(KIND_CREATION);
            push_u64(&mut out, *tick);
            push_u64(&mut out, *owner);
            push_u64(&mut out, coord_to_wire(position.x));
            push_u64(&mut out, coord_to_wire(position.y));
            proof {
                assert(out@ =~= spec_encode(*m));
            }
        },
        WireMessage::DespawnRecord { tick, owner } => {
            out.push(KIND_DESPAWN);
            push_u64(&mut out, *tick);
            push_u64(&mut out, *owner);
            proof {
                assert(out@ =~= spec_encode(*m));
            }
        },
        WireMessage::ChannelAck { seq_no } => {
            out.push(KIND_ACK);
            push_u64(&mut out, *seq_no);
            proof {
                assert(out@ =~= spec_encode(*m));
            }
        },
        WireMessage::AcceptFrame { client_id } => {
            out.push(KIND_ACCEPT);
            push_u64(&mut out, *client_id);
            proof {
                assert(out@ =~= spec_encode(*m));
            }
        },
        WireMessage::RejectFrame => {
            out.push(KIND_REJECT);
            proof {
                assert(out@ =~= spec_encode(*m));
            }
        },
    }
    out
}

/// Read the little-endian integer at `start`.
fn read_u64(bytes: &[u8], start: usize) -> (r: u64)
    requires
        start <= usize::MAX - 8,
        start + 8 <= bytes@.len(),
    ensures
        r == spec_u64_from_le_bytes(bytes@.subrange(start as int, start as int + 8)),
{
    let part = slice_subrange(bytes, start, start + 8);
    u64_from_le_bytes(part)
}

/// Decode a byte string into the message it stands for, or nothing when
/// it is malformed.
pub fn decode(bytes: &[u8]) -> (r: Option<WireMessage>)
    ensures
        r == spec_decode(bytes@),
{
    if bytes.len() < 1 {
        return None;
    }
    let kind = *vstd::slice::slice_index_get(bytes, 0);
    if kind == KIND_INPUT {
        if bytes.len() == 10 {
            let tick = read_u64(bytes, 1);
            let code = *vstd::slice::slice_index_get(bytes, 9);
            match code_input_exec(code) {
                Some(input) => Some(WireMessage::InputFrame { tick, input }),
                None => None,
            }
        } else {
            None
        }
    } else if kind == KIND_SNAPSHOT || kind == KIND_CREATION {
        if bytes.len() == 33 {
            let tick = read_u64(bytes, 1);
            let owner = read_u64(bytes, 9);
            let x = coord_from_wire(read_u64(bytes, 17));
            let y = coord_from_wire(read_u64(bytes, 25));
            let position = PlayerPosition { x, y };
            if kind == KIND_SNAPSHOT {
                Some(WireMessage::SnapshotRecord { tick, owner, position })
            } else {
                Some(WireMessage::CreationRecord { tick, owner, position })
            }
        } else {
            None
        }
    } else if kind == KIND_DESPAWN {
        if bytes.len() == 17 {
            let tick = read_u64(bytes, 1);
            let owner = read_u64(bytes, 9);
            Some(WireMessage::DespawnRecord { tick, owner })
        } else {
            None
        }
    } else if kind == KIND_ACK {
        if bytes.len() == 9 {
            let seq_no = read_u64(bytes, 1);
            Some(WireMessage::ChannelAck { seq_no })
        } else {
            None
        }
    } else if kind == KIND_ACCEPT {
        if bytes.len() == 9 {
            let client_id = read_u64(bytes, 1);
            Some(WireMessage::AcceptFrame { client_id })
        } else {
            None
        }
    } else if kind == KIND_REJECT {
        if bytes.len() == 1 {
            Some(WireMessage::RejectFrame)
        } else {
            None
        }
    } else {
        None
    }
}

/// What one peer encodes, the other decodes back unchanged: the wire
/// format loses nothing and confuses no two messages.
pub proof fn lemma_codec_roundtrip(m: WireMessage)
    ensures
        spec_decode(spec_encode(m)) == Some(m),
{
    lemma_auto_spec_u64_to_from_le_bytes();
    let e = spec_encode(m);
    match m {
        WireMessage::InputFrame { tick, input } => {
            assert(e.len() == 10);
            assert(e[0] == KIND_INPUT);
            assert(e.subrange(1, 9) =~= spec_u64_to_le_bytes(tick));
            assert(e[9] == input_code(input));
            lemma_input_code_roundtrip(input);
        },
        WireMessage::SnapshotRecord { tick, owner, position } => {
            assert(e.len() == 33);
            assert(e[0] == KIND_SNAPSHOT);
            assert(e.subrange(1, 9) =~= spec_u64_to_le_bytes(tick));
            assert(e.subrange(9, 17) =~= spec_u64_to_le_bytes(owner));
            assert(e.subrange(17, 25) =~= spec_u64_to_le_bytes(position.x as u64));
            assert(e.subrange(25, 33) =~= spec_u64_to_le_bytes(position.y as u64));
            lemma_coord_roundtrip(position.x);
            lemma_coord_roundtrip(position.y);
        },
        WireMessage::CreationRecord { tick, owner, position } => {
            assert(e.len() == 33);
            assert(e[0] == KIND_CREATION);
            assert(e.subrange(1, 9) =~= spec_u64_to_le_bytes(tick));
            assert(e.subrange(9, 17) =~= spec_u64_to_le_bytes(owner));
            assert(e.subrange(17, 25) =~= spec_u64_to_le_bytes(position.x as u64));
            assert(e.subrange(25, 33) =~= spec_u64_to_le_bytes(position.y as u64));
            lemma_coord_roundtrip(position.x);
            lemma_coord_roundtrip(position.y);
        },
        WireMessage::DespawnRecord { tick, owner } => {
            assert(e.len() == 17);
            assert(e[0] == KIND_DESPAWN);
            assert(e.subrange(1, 9) =~= spec_u64_to_le_bytes(tick));
            assert(e.subrange(9, 17) =~= spec_u64_to_le_bytes(owner));
        },
        WireMessage::ChannelAck { seq_no } => {
            assert(e.len() == 9);
            assert(e[0] == KIND_ACK);
            assert(e.subrange(1, 9) =~= spec_u64_to_le_bytes(seq_no));
        },
        WireMessage::AcceptFrame { client_id } => {
            assert(e.len() == 9);
            assert(e[0] == KIND_ACCEPT);
            assert(e.subrange(1, 9) =~= spec_u64_to_le_bytes(client_id));
        },
        WireMessage::RejectFrame => {
            assert(e.len() == 1);
            assert(e[0] == KIND_REJECT);
        },
    }
}

/// Encode a connect request: kind byte, identity, protocol id, then the
/// 32 bytes of the pre-shared key.
pub fn encode_connect(req: &ConnectRequest) -> (r: Vec<u8>)
    ensures
        r@ =~= seq![KIND_CONNECT] + spec_u64_to_le_bytes(req.client_id) + spec_u64_to_le_bytes(
            req.protocol_id,
        ) + req.secret@,
{
    let mut out: Vec<u8> = Vec::new();
    out.push(KIND_CONNECT);
    push_u64(&mut out, req.client_id);
    push_u64(&mut out, req.protocol_id);
    let mut i: usize = 0;
    while i < 32
        invariant
            i <= 32,
            req.secret@.len() == 32,
            out@ =~= seq![KIND_CONNECT] + spec_u64_to_le_bytes(req.client_id)
                + spec_u64_to_le_bytes(req.protocol_id) + req.secret@.subrange(0, i as int),
        decreases 32 - i,
    {
        out.push(req.secret[i]);
        i = i + 1;
    }
    proof {
        assert(req.secret@.subrange(0, 32) =~= req.secret@);
    }
    out
}

/// Decode a connect request: exactly the well-formed 49-byte connect
/// frames decode, and every field, the key included, is recovered
/// unchanged.
pub fn decode_connect(bytes: &[u8]) -> (r: Option<ConnectRequest>)
    ensures
        r is Some <==> bytes@.len() == 49 && bytes@[0] == KIND_CONNECT,
        r matches Some(req) ==> {
            &&& req.client_id == spec_u64_from_le_bytes(bytes@.subrange(1, 9))
            &&& req.protocol_id == spec_u64_from_le_bytes(bytes@.subrange(9, 17))
            &&& req.secret@ =~= bytes@.subrange(17, 49)
        },
{
    if bytes.len() != 49 {
        return None;
    }
    let kind = *vstd::slice::slice_index_get(bytes, 0);
    if kind != KIND_CONNECT {
        return None;
    }
    let client_id = read_u64(bytes, 1);
    let protocol_id = read_u64(bytes, 9);
    let mut secret: [u8; 32] = [0; 32];
    let mut i: usize = 0;
    while i < 32
        invariant
            i <= 32,
            bytes@.len() == 49,
            secret@.len() == 32,
            forall|j: int| 0 <= j < i ==> secret@[j] == bytes@[17 + j],
        decreases 32 - i,
    {
        secret[i] = *vstd::slice::slice_index_get(bytes, 17 + i);
        i = i + 1;
    }
    proof {
        assert(secret@ =~= bytes@.subrange(17, 49));
    }
    Some(ConnectRequest { client_id, protocol_id, secret })
}

} // verus!
