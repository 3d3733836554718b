use bytes::Bytes;
use futures::sync::mpsc::{unbounded, UnboundedReceiver};
use futures::Stream;
use line_chat::registry::PeerRegistry;

fn received(rx: UnboundedReceiver<Bytes>) -> Vec<Vec<u8>> {
    rx.wait().map(|m| m.unwrap().to_vec()).collect()
}

#[test]
fn broadcast_reaches_every_other_peer_once() {
    let mut reg = PeerRegistry::new();
    let (tx1, rx1) = unbounded();
    let (tx2, rx2) = unbounded();
    let (tx3, rx3) = unbounded();
    reg.insert(1, tx1);
    reg.insert(2, tx2);
    reg.insert(3, tx3);
    assert_eq!(reg.len(), 3);
    let msg = Bytes::from(&b"x: hi\r\n"[..]);
    let mut reached = reg.broadcast(2, &msg);
    reached.sort();
    assert_eq!(reached, vec![1, 3]);
    drop(reg);
    assert_eq!(received(rx1), vec![b"x: hi\r\n".to_vec()]);
    assert!(received(rx2).is_empty());
    assert_eq!(received(rx3), vec![b"x: hi\r\n".to_vec()]);
}

#[test]
fn broadcast_from_unregistered_sender_reaches_all() {
    let mut reg = PeerRegistry::new();
    let (tx1, _rx1) = unbounded();
    let (tx2, _rx2) = unbounded();
    reg.insert(10, tx1);
    reg.insert(20, tx2);
    let mut reached = reg.broadcast(99, &Bytes::from(&b"m"[..]));
    reached.sort();
    assert_eq!(reached, vec![10, 20]);
}

#[test]
fn broadcast_on_empty_registry_reaches_nobody() {
    let mut reg = PeerRegistry::new();
    assert!(reg.broadcast(1, &Bytes::from(&b"m"[..])).is_empty());
}

#[test]
fn removed_peer_gets_no_later_broadcast() {
    let mut reg = PeerRegistry::new();
    let (tx1, rx1) = unbounded();
    let (tx2, _rx2) = unbounded();
    reg.insert(1, tx1);
    reg.insert(2, tx2);
    reg.remove(1);
    assert!(!reg.contains(1));
    assert!(reg.contains(2));
    assert!(reg.broadcast(2, &Bytes::from(&b"m"[..])).is_empty());
    drop(reg);
    assert!(received(rx1).is_empty());
}

#[test]
fn remove_is_idempotent() {
    let mut reg = PeerRegistry::new();
    let (tx1, _rx1) = unbounded();
    reg.insert(1, tx1);
    reg.remove(1);
    reg.remove(1);
    reg.remove(7);
    assert_eq!(reg.len(), 0);
}

#[test]
fn send_to_departed_receiver_is_absorbed() {
    let mut reg = PeerRegistry::new();
    let (tx1, rx1) = unbounded();
    let (tx2, rx2) = unbounded();
    reg.insert(1, tx1);
    reg.insert(2, tx2);
    drop(rx1);
    let mut reached = reg.broadcast(3, &Bytes::from(&b"m"[..]));
    reached.sort();
    assert_eq!(reached, vec![1, 2]);
    drop(reg);
    assert_eq!(received(rx2), vec![b"m".to_vec()]);
}
