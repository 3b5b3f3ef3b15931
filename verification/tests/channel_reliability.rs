use matrix_rpg_net::channel::protocol;
use matrix_rpg_net::channel::Channel1;
use matrix_rpg_net::channel::ChannelMode;
use matrix_rpg_net::channel::ReliableReceiver;
use matrix_rpg_net::channel::ReliableSender;
use matrix_rpg_net::channel::RESEND_INTERVAL_TICKS;

#[test]
fn silence_triggers_retransmission_of_the_backlog() {
    let mut tx = ReliableSender::new();
    tx.send(vec![10]);
    tx.send(vec![20]);
    // Not yet silent for a whole interval: nothing goes out again.
    assert_eq!(tx.frames_to_resend(RESEND_INTERVAL_TICKS - 1, RESEND_INTERVAL_TICKS).len(), 0);
    // The interval elapsed: the whole backlog is re-sent, oldest first.
    let frames = tx.frames_to_resend(RESEND_INTERVAL_TICKS, RESEND_INTERVAL_TICKS);
    assert_eq!(frames.len(), 2);
    assert_eq!(frames[0], vec![10]);
    assert_eq!(frames[1], vec![20]);
    // The timer restarted: the next tick re-sends nothing.
    assert_eq!(
        tx.frames_to_resend(RESEND_INTERVAL_TICKS + 1, RESEND_INTERVAL_TICKS).len(),
        0
    );
    // Another silent interval re-sends what is still unacknowledged.
    tx.on_ack(0);
    let frames = tx.frames_to_resend(3 * RESEND_INTERVAL_TICKS, RESEND_INTERVAL_TICKS);
    assert_eq!(frames.len(), 1);
    assert_eq!(frames[0], vec![20]);
    // With everything acknowledged there is nothing left to re-send.
    tx.on_ack(1);
    assert_eq!(tx.frames_to_resend(9 * RESEND_INTERVAL_TICKS, RESEND_INTERVAL_TICKS).len(), 0);
}

#[test]
fn the_protocol_registers_an_ordered_reliable_channel() {
    let _marker = Channel1;
    assert!(matches!(protocol().mode, ChannelMode::OrderedReliable));
}
use matrix_rpg_net::protocol::Message1;
use matrix_rpg_net::protocol::Messages;

#[test]
fn discrete_messages_carry_their_payload() {
    let message = Messages::Message1(Message1(5));
    match message {
        Messages::Message1(Message1(v)) => assert_eq!(v, 5),
    }
}

#[test]
fn messages_deliver_in_order_exactly_once() {
    let mut rx = ReliableReceiver::new();
    assert!(rx.accept(0));
    assert!(rx.accept(1));
    // A redelivered duplicate is discarded.
    assert!(!rx.accept(1));
    // A message that overtook a gap is discarded until the gap fills.
    assert!(!rx.accept(3));
    assert!(rx.accept(2));
    assert!(rx.accept(3));
    assert_eq!(rx.next_expected, 4);
}

#[test]
fn sender_numbers_and_buffers_until_acked() {
    let mut tx = ReliableSender::new();
    assert_eq!(tx.send(vec![1]), 0);
    assert_eq!(tx.send(vec![2]), 1);
    assert_eq!(tx.send(vec![3]), 2);
    assert_eq!(tx.unacked.len(), 3);
    // A cumulative ack releases everything at or below it.
    tx.on_ack(1);
    assert_eq!(tx.unacked.len(), 1);
    assert_eq!(tx.unacked[0].seq_no, 2);
    assert_eq!(tx.unacked[0].payload, vec![3]);
    // An old ack changes nothing.
    tx.on_ack(0);
    assert_eq!(tx.unacked.len(), 1);
    tx.on_ack(2);
    assert_eq!(tx.unacked.len(), 0);
}

#[test]
fn retransmission_closes_a_loss_gap() {
    let mut tx = ReliableSender::new();
    let mut rx = ReliableReceiver::new();
    let first = tx.send(vec![10]);
    let second = tx.send(vec![20]);
    // The first packet is lost; the second arrives early and is held off.
    assert!(!rx.accept(second));
    // The sender still buffers both, so a resend delivers in order.
    assert_eq!(tx.unacked.len(), 2);
    assert!(rx.accept(first));
    assert!(rx.accept(second));
    tx.on_ack(second);
    assert_eq!(tx.unacked.len(), 0);
}
