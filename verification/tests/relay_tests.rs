use sync_relay::channel::{FanOut, Msg, Recv};
use sync_relay::handler::{on_client_event, on_connect, on_fanout, ClientEvent, Forward};
use sync_relay::relay::Relay;

#[test]
fn new_relay_is_empty() {
    let r = Relay::new(8765, 16);
    assert_eq!(r.port(), 8765);
    assert_eq!(r.get_count(), 0);
    assert!(r.get_snapshot().is_none());
}

#[test]
fn connect_without_snapshot_sends_nothing() {
    let mut r = Relay::new(8765, 16);
    let c = on_connect(&mut r);
    assert_eq!(c.count, 1);
    assert!(c.initial.is_none());
    assert_eq!(r.get_count(), 1);
}

#[test]
fn connect_with_snapshot_receives_exactly_it() {
    let mut r = Relay::new(8765, 16);
    r.set_snapshot(None, vec![1, 2, 3]);
    let c = on_connect(&mut r);
    assert_eq!(c.count, 1);
    assert_eq!(c.initial, Some(vec![1, 2, 3]));
}

#[test]
fn counter_saturates_at_zero() {
    let mut r = Relay::new(8765, 16);
    assert_eq!(r.decrement_count(), 0);
    assert_eq!(r.decrement_count(), 0);
    assert_eq!(r.get_count(), 0);
}

#[test]
fn counter_is_connects_minus_disconnects() {
    let mut r = Relay::new(8765, 16);
    on_connect(&mut r);
    on_connect(&mut r);
    on_connect(&mut r);
    r.decrement_count();
    on_connect(&mut r);
    r.decrement_count();
    // 4 accepted, 2 terminated
    assert_eq!(r.get_count(), 2);
}

#[test]
fn ping_gets_matching_pong_and_changes_nothing() {
    let mut r = Relay::new(8765, 16);
    on_connect(&mut r);
    let step = on_client_event(&mut r, 1, ClientEvent::Ping(vec![9, 9, 9]));
    assert_eq!(step.pong, Some(vec![9, 9, 9]));
    assert!(!step.disconnect);
    assert!(r.get_snapshot().is_none());
    assert_eq!(r.get_count(), 1);
}

#[test]
fn close_error_and_other_frames() {
    let mut r = Relay::new(8765, 16);
    on_connect(&mut r);
    let step = on_client_event(&mut r, 1, ClientEvent::Close);
    assert!(step.disconnect);
    assert!(step.pong.is_none());
    let step = on_client_event(&mut r, 1, ClientEvent::TransportError);
    assert!(step.disconnect);
    assert!(step.pong.is_none());
    let step = on_client_event(&mut r, 1, ClientEvent::Other);
    assert!(!step.disconnect);
    assert!(step.pong.is_none());
    // none of them touched the state
    assert!(r.get_snapshot().is_none());
    assert_eq!(r.get_count(), 1);
}

#[test]
fn last_write_wins() {
    let mut r = Relay::new(8765, 16);
    // one push from the host, one from a client: same treatment
    r.set_snapshot(None, vec![1]);
    let step = on_client_event(&mut r, 7, ClientEvent::Binary(vec![2]));
    assert!(!step.disconnect);
    assert_eq!(r.get_snapshot(), Some(vec![2]));
}

#[test]
fn binary_frame_stores_and_republishes() {
    let mut r = Relay::new(8765, 16);
    let a = on_connect(&mut r);
    let b = on_connect(&mut r);
    let mut sub_a = a.sub;
    let mut sub_b = b.sub;
    on_client_event(&mut r, 1, ClientEvent::Binary(vec![42]));
    assert_eq!(r.get_snapshot(), Some(vec![42]));
    // not echoed back to its publisher
    assert!(matches!(on_fanout(&r, &mut sub_a, 1), Forward::Skip));
    assert!(matches!(on_fanout(&r, &mut sub_a, 1), Forward::Idle));
    // forwarded unmodified to the other client
    match on_fanout(&r, &mut sub_b, 2) {
        Forward::Deliver(doc) => assert_eq!(doc, vec![42]),
        _ => panic!("expected a delivery"),
    }
    // and only once
    assert!(matches!(on_fanout(&r, &mut sub_b, 2), Forward::Idle));
}

#[test]
fn host_push_reaches_every_client() {
    let mut r = Relay::new(8765, 16);
    let a = on_connect(&mut r);
    let b = on_connect(&mut r);
    let mut sub_a = a.sub;
    let mut sub_b = b.sub;
    r.set_snapshot(None, vec![5, 6]);
    match on_fanout(&r, &mut sub_a, 1) {
        Forward::Deliver(doc) => assert_eq!(doc, vec![5, 6]),
        _ => panic!("expected a delivery"),
    }
    match on_fanout(&r, &mut sub_b, 2) {
        Forward::Deliver(doc) => assert_eq!(doc, vec![5, 6]),
        _ => panic!("expected a delivery"),
    }
}

#[test]
fn empty_snapshot_is_a_snapshot() {
    let mut r = Relay::new(8765, 16);
    let a = on_connect(&mut r);
    let mut sub_a = a.sub;
    r.set_snapshot(None, vec![]);
    assert_eq!(r.get_snapshot(), Some(vec![]));
    match on_fanout(&r, &mut sub_a, 1) {
        Forward::Deliver(doc) => assert_eq!(doc, Vec::<u8>::new()),
        _ => panic!("expected a delivery"),
    }
    let b = on_connect(&mut r);
    assert_eq!(b.initial, Some(vec![]));
}

#[test]
fn fanout_delivers_in_publish_order() {
    let mut c = FanOut::new(16);
    let mut s = c.subscribe();
    c.publish(Msg { origin: Some(1), payload: vec![1] });
    c.publish(Msg { origin: Some(2), payload: vec![2] });
    match c.recv(&mut s) {
        Recv::Delivered(m) => {
            assert_eq!(m.payload, vec![1]);
            assert_eq!(m.origin, Some(1));
        }
        _ => panic!("expected a delivery"),
    }
    match c.recv(&mut s) {
        Recv::Delivered(m) => {
            assert_eq!(m.payload, vec![2]);
            assert_eq!(m.origin, Some(2));
        }
        _ => panic!("expected a delivery"),
    }
    assert!(matches!(c.recv(&mut s), Recv::Empty));
}

#[test]
fn fanout_drops_oldest_on_overflow() {
    let mut c = FanOut::new(2);
    let mut s = c.subscribe();
    c.publish(Msg { origin: None, payload: vec![1] });
    c.publish(Msg { origin: None, payload: vec![2] });
    c.publish(Msg { origin: None, payload: vec![3] });
    // the subscriber lagged past the retention bound: one message evicted
    match c.recv(&mut s) {
        Recv::Lagged(k) => assert_eq!(k, 1),
        _ => panic!("expected a lag notice"),
    }
    // the rest arrive in order, unmodified
    match c.recv(&mut s) {
        Recv::Delivered(m) => assert_eq!(m.payload, vec![2]),
        _ => panic!("expected a delivery"),
    }
    match c.recv(&mut s) {
        Recv::Delivered(m) => assert_eq!(m.payload, vec![3]),
        _ => panic!("expected a delivery"),
    }
    assert!(matches!(c.recv(&mut s), Recv::Empty));
}

#[test]
fn subscriber_sees_only_messages_after_subscribing() {
    let mut c = FanOut::new(8);
    c.publish(Msg { origin: None, payload: vec![1] });
    let mut s = c.subscribe();
    assert!(matches!(c.recv(&mut s), Recv::Empty));
    c.publish(Msg { origin: None, payload: vec![2] });
    match c.recv(&mut s) {
        Recv::Delivered(m) => assert_eq!(m.payload, vec![2]),
        _ => panic!("expected a delivery"),
    }
}

#[test]
fn end_to_end_scenario() {
    let mut r = Relay::new(8765, 16);

    // A connects: count 0 -> 1, no snapshot sent
    let a = on_connect(&mut r);
    assert_eq!(a.count, 1);
    assert!(a.initial.is_none());
    let mut sub_a = a.sub;

    // A publishes "X": stored; no other subscriber, and not echoed to A
    let step = on_client_event(&mut r, 1, ClientEvent::Binary(b"X".to_vec()));
    assert!(!step.disconnect);
    assert_eq!(r.get_snapshot(), Some(b"X".to_vec()));
    assert!(matches!(on_fanout(&r, &mut sub_a, 1), Forward::Skip));

    // B connects: count 1 -> 2, immediately receives "X"
    let b = on_connect(&mut r);
    assert_eq!(b.count, 2);
    assert_eq!(b.initial, Some(b"X".to_vec()));
    let mut sub_b = b.sub;

    // A publishes "Y"; B receives "Y" via fan-out
    on_client_event(&mut r, 1, ClientEvent::Binary(b"Y".to_vec()));
    match on_fanout(&r, &mut sub_b, 2) {
        Forward::Deliver(doc) => assert_eq!(doc, b"Y".to_vec()),
        _ => panic!("expected a delivery"),
    }

    // B disconnects: count 2 -> 1; the host queries and sees 1
    let step = on_client_event(&mut r, 2, ClientEvent::Close);
    assert!(step.disconnect);
    assert_eq!(r.decrement_count(), 1);
    assert_eq!(r.get_count(), 1);
}
