use matrix_rpg_net::codec::decode;
use matrix_rpg_net::codec::decode_connect;
use matrix_rpg_net::codec::encode;
use matrix_rpg_net::codec::encode_connect;
use matrix_rpg_net::codec::WireMessage;
use matrix_rpg_net::connection::ConnectRequest;
use matrix_rpg_net::protocol::Direction;
use matrix_rpg_net::protocol::Inputs;
use matrix_rpg_net::protocol::PlayerPosition;

fn roundtrip(m: WireMessage) -> WireMessage {
    let bytes = encode(&m);
    decode(&bytes).expect("a well-formed frame must decode")
}

#[test]
fn input_frame_roundtrips() {
    for bits in 0u8..16 {
        let input = Inputs::Direction(Direction {
            up: bits & 1 != 0,
            down: bits & 2 != 0,
            left: bits & 4 != 0,
            right: bits & 8 != 0,
        });
        let m = WireMessage::InputFrame { tick: 0xDEAD_BEEF_1234, input };
        match roundtrip(m) {
            WireMessage::InputFrame { tick, input: out } => {
                assert_eq!(tick, 0xDEAD_BEEF_1234);
                assert_eq!(out, input);
            }
            _ => panic!("wrong kind"),
        }
    }
    for input in [Inputs::Spawn, Inputs::Delete, Inputs::NoInput] {
        let m = WireMessage::InputFrame { tick: 3, input };
        match roundtrip(m) {
            WireMessage::InputFrame { tick, input: out } => {
                assert_eq!(tick, 3);
                assert_eq!(out, input);
            }
            _ => panic!("wrong kind"),
        }
    }
}

#[test]
fn snapshot_roundtrips_with_negative_coordinates() {
    let m = WireMessage::SnapshotRecord {
        tick: 64,
        owner: u64::MAX,
        position: PlayerPosition { x: -12345, y: i64::MIN },
    };
    match roundtrip(m) {
        WireMessage::SnapshotRecord { tick, owner, position } => {
            assert_eq!(tick, 64);
            assert_eq!(owner, u64::MAX);
            assert_eq!(position.x, -12345);
            assert_eq!(position.y, i64::MIN);
        }
        _ => panic!("wrong kind"),
    }
}

#[test]
fn creation_despawn_ack_accept_reject_roundtrip() {
    let creation = WireMessage::CreationRecord {
        tick: 1,
        owner: 9,
        position: PlayerPosition { x: 10, y: -10 },
    };
    assert!(matches!(
        roundtrip(creation),
        WireMessage::CreationRecord { tick: 1, owner: 9, position } if position.x == 10 && position.y == -10
    ));
    assert!(matches!(
        roundtrip(WireMessage::DespawnRecord { tick: 2, owner: 3 }),
        WireMessage::DespawnRecord { tick: 2, owner: 3 }
    ));
    assert!(matches!(
        roundtrip(WireMessage::ChannelAck { seq_no: 77 }),
        WireMessage::ChannelAck { seq_no: 77 }
    ));
    assert!(matches!(
        roundtrip(WireMessage::AcceptFrame { client_id: 8 }),
        WireMessage::AcceptFrame { client_id: 8 }
    ));
    assert!(matches!(roundtrip(WireMessage::RejectFrame), WireMessage::RejectFrame));
}

#[test]
fn malformed_frames_decode_to_nothing() {
    assert!(decode(&[]).is_none());
    assert!(decode(&[200]).is_none());
    // Right kind, wrong length.
    assert!(decode(&[0, 1, 2]).is_none());
    assert!(decode(&[1; 10]).is_none());
    // Input frame with an undefined input byte.
    let mut bytes = encode(&WireMessage::InputFrame { tick: 1, input: Inputs::NoInput });
    let last = bytes.len() - 1;
    bytes[last] = 200;
    assert!(decode(&bytes).is_none());
}

#[test]
fn connect_request_roundtrips_with_its_key() {
    let mut secret = [0u8; 32];
    for (i, b) in secret.iter_mut().enumerate() {
        *b = i as u8;
    }
    let req = ConnectRequest { client_id: 11, protocol_id: 22, secret };
    let bytes = encode_connect(&req);
    assert_eq!(bytes.len(), 49);
    let out = decode_connect(&bytes).expect("a connect frame must decode");
    assert_eq!(out.client_id, 11);
    assert_eq!(out.protocol_id, 22);
    assert_eq!(out.secret, secret);
    // A truncated or mislabelled frame decodes to nothing.
    assert!(decode_connect(&bytes[..48]).is_none());
    let mut wrong = bytes.clone();
    wrong[0] = 9;
    assert!(decode_connect(&wrong).is_none());
}
