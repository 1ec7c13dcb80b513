use serde_json::Value;
use sidecar_bridge::PendingTable;
use tokio::sync::oneshot::error::TryRecvError;

#[test]
fn new_table_is_empty() {
    let table = PendingTable::new();
    assert_eq!(table.len(), 0);
    assert!(!table.is_pending(1));
}

#[test]
fn register_makes_an_id_pending() {
    let mut table = PendingTable::new();
    let mut receiver = table.register(1);
    assert!(table.is_pending(1));
    assert!(!table.is_pending(2));
    assert_eq!(table.len(), 1);
    assert_eq!(receiver.try_recv(), Err(TryRecvError::Empty));
}

#[test]
fn resolve_hands_the_value_to_the_waiting_receiver() {
    let mut table = PendingTable::new();
    let mut receiver = table.register(1);
    assert!(table.resolve(1, Value::from("answer")));
    assert_eq!(receiver.try_recv(), Ok(Value::from("answer")));
    assert!(!table.is_pending(1));
    assert_eq!(table.len(), 0);
}

#[test]
fn resolve_of_an_unknown_id_is_dropped() {
    let mut table = PendingTable::new();
    let mut receiver = table.register(1);
    assert!(!table.resolve(9999, Value::from(1)));
    assert!(table.is_pending(1));
    assert_eq!(table.len(), 1);
    assert_eq!(receiver.try_recv(), Err(TryRecvError::Empty));
}

#[test]
fn resolve_fulfils_a_slot_at_most_once() {
    let mut table = PendingTable::new();
    let mut receiver = table.register(3);
    assert!(table.resolve(3, Value::from("first")));
    assert!(!table.resolve(3, Value::from("second")));
    assert_eq!(receiver.try_recv(), Ok(Value::from("first")));
}

#[test]
fn resolve_reaches_only_the_id_it_names() {
    let mut table = PendingTable::new();
    let mut one = table.register(1);
    let mut two = table.register(2);
    let mut three = table.register(3);
    assert!(table.resolve(2, Value::from("two")));
    assert_eq!(one.try_recv(), Err(TryRecvError::Empty));
    assert_eq!(two.try_recv(), Ok(Value::from("two")));
    assert_eq!(three.try_recv(), Err(TryRecvError::Empty));
    assert!(table.is_pending(1));
    assert!(!table.is_pending(2));
    assert!(table.is_pending(3));
}

#[test]
fn resolve_reports_a_waiter_whose_receiver_is_gone() {
    let mut table = PendingTable::new();
    let receiver = table.register(4);
    drop(receiver);
    assert!(table.resolve(4, Value::from(1)));
    assert!(!table.is_pending(4));
}

#[test]
fn claim_pairs_the_payload_with_the_slot_of_the_id() {
    let mut table = PendingTable::new();
    let mut one = table.register(1);
    let mut two = table.register(2);
    let delivery = table.claim(1, Value::from("for one")).unwrap();
    assert_eq!(delivery.id, 1);
    assert_eq!(delivery.payload, Value::from("for one"));
    assert!(!table.is_pending(1));
    assert!(table.is_pending(2));
    assert_eq!(one.try_recv(), Err(TryRecvError::Empty));
    assert_eq!(delivery.send(), Ok(()));
    assert_eq!(one.try_recv(), Ok(Value::from("for one")));
    assert_eq!(two.try_recv(), Err(TryRecvError::Empty));
}

#[test]
fn claim_of_an_unknown_id_gives_nothing() {
    let mut table = PendingTable::new();
    let _receiver = table.register(1);
    assert!(table.claim(2, Value::Null).is_none());
    assert_eq!(table.len(), 1);
}

#[test]
fn send_hands_the_payload_back_when_the_receiver_is_gone() {
    let mut table = PendingTable::new();
    let receiver = table.register(1);
    let delivery = table.claim(1, Value::from(5)).unwrap();
    drop(receiver);
    assert_eq!(delivery.send(), Err(Value::from(5)));
}

#[test]
fn register_under_a_used_id_replaces_the_entry() {
    let mut table = PendingTable::new();
    let mut old = table.register(1);
    let mut new = table.register(1);
    assert_eq!(table.len(), 1);
    assert_eq!(old.try_recv(), Err(TryRecvError::Closed));
    assert!(table.resolve(1, Value::from(true)));
    assert_eq!(new.try_recv(), Ok(Value::from(true)));
}

#[test]
fn dropping_the_table_closes_every_waiting_receiver() {
    let mut table = PendingTable::new();
    let mut one = table.register(1);
    let mut two = table.register(2);
    drop(table);
    assert_eq!(one.try_recv(), Err(TryRecvError::Closed));
    assert_eq!(two.try_recv(), Err(TryRecvError::Closed));
}

#[test]
fn keep_stores_the_given_sender_and_returns_the_given_receiver() {
    let mut table = PendingTable::new();
    let (sender, receiver) = tokio::sync::oneshot::channel::<Value>();
    let mut kept = table.keep(7, sender, receiver);
    assert!(table.is_pending(7));
    assert_eq!(table.len(), 1);
    assert_eq!(kept.try_recv(), Err(TryRecvError::Empty));
    assert!(table.resolve(7, Value::from("through the kept sender")));
    assert_eq!(kept.try_recv(), Ok(Value::from("through the kept sender")));
}

#[test]
fn keep_under_a_used_id_drops_the_entry_that_was_there() {
    let mut table = PendingTable::new();
    let mut first = table.register(1);
    let (sender, receiver) = tokio::sync::oneshot::channel::<Value>();
    let mut second = table.keep(1, sender, receiver);
    assert_eq!(table.len(), 1);
    assert_eq!(first.try_recv(), Err(TryRecvError::Closed));
    assert!(table.resolve(1, Value::from(2)));
    assert_eq!(second.try_recv(), Ok(Value::from(2)));
}
