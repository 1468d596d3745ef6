use futures::channel::mpsc;
use telemetry_layer::senders::Delivery;
use telemetry_layer::senders::SenderTable;
use telemetry_layer::senders::Senders;

fn message(verbosity: u8, json: &str) -> (u8, String) {
    (verbosity, json.to_string())
}

#[test]
fn new_table_is_empty() {
    let table = SenderTable::new();
    assert_eq!(table.len(), 0);
    assert!(!table.contains(0));
    let table = SenderTable::default();
    assert_eq!(table.len(), 0);
}

#[test]
fn insert_registers_a_sender() {
    let (tx, _rx) = mpsc::channel::<(u8, String)>(4);
    let mut table = SenderTable::new();
    table.insert(3, tx);
    assert!(table.contains(3));
    assert!(!table.contains(4));
    assert_eq!(table.len(), 1);
}

#[test]
fn send_without_a_destination_is_reported() {
    let (tx, mut rx) = mpsc::channel::<(u8, String)>(4);
    let mut table = SenderTable::new();
    assert_eq!(table.get_and_try_send(3, message(1, "{}")), Delivery::NoDestination);
    table.insert(3, tx);
    assert_eq!(table.get_and_try_send(4, message(1, "{}")), Delivery::NoDestination);
    assert_eq!(table.len(), 1);
    assert!(rx.try_recv().is_err());
}

#[test]
fn send_enqueues_the_message_on_the_registered_channel() {
    let (tx, mut rx) = mpsc::channel::<(u8, String)>(4);
    let mut table = SenderTable::new();
    table.insert(3, tx);
    assert_eq!(table.get_and_try_send(3, message(2, "{\"a\":1}")), Delivery::Delivered);
    assert_eq!(rx.try_recv(), Ok((2, "{\"a\":1}".to_string())));
    assert!(rx.try_recv().is_err());
    assert!(table.contains(3));
    assert_eq!(table.len(), 1);
}

#[test]
fn messages_on_one_channel_keep_their_order() {
    let (tx, mut rx) = mpsc::channel::<(u8, String)>(8);
    let mut table = SenderTable::new();
    table.insert(1, tx);
    assert_eq!(table.get_and_try_send(1, message(0, "first")), Delivery::Delivered);
    assert_eq!(table.get_and_try_send(1, message(1, "second")), Delivery::Delivered);
    assert_eq!(table.get_and_try_send(1, message(2, "third")), Delivery::Delivered);
    assert_eq!(rx.try_recv(), Ok((0, "first".to_string())));
    assert_eq!(rx.try_recv(), Ok((1, "second".to_string())));
    assert_eq!(rx.try_recv(), Ok((2, "third".to_string())));
}

#[test]
fn second_insert_under_a_key_replaces_the_first() {
    let (tx_a, mut rx_a) = mpsc::channel::<(u8, String)>(4);
    let (tx_b, mut rx_b) = mpsc::channel::<(u8, String)>(4);
    let mut table = SenderTable::new();
    table.insert(9, tx_a);
    table.insert(9, tx_b);
    assert_eq!(table.len(), 1);
    assert_eq!(table.get_and_try_send(9, message(1, "{}")), Delivery::Delivered);
    assert_eq!(rx_b.try_recv(), Ok((1, "{}".to_string())));
    assert_eq!(rx_a.try_recv(), Err(mpsc::TryRecvError::Closed));
}

#[test]
fn messages_queued_before_a_replacement_stay_queued() {
    let (tx_a, mut rx_a) = mpsc::channel::<(u8, String)>(4);
    let (tx_b, mut rx_b) = mpsc::channel::<(u8, String)>(4);
    let mut table = SenderTable::new();
    table.insert(9, tx_a);
    assert_eq!(table.get_and_try_send(9, message(1, "old")), Delivery::Delivered);
    table.insert(9, tx_b);
    assert_eq!(table.get_and_try_send(9, message(2, "new")), Delivery::Delivered);
    assert_eq!(rx_a.try_recv(), Ok((1, "old".to_string())));
    assert_eq!(rx_a.try_recv(), Err(mpsc::TryRecvError::Closed));
    assert_eq!(rx_b.try_recv(), Ok((2, "new".to_string())));
}

#[test]
fn full_channel_rejects_without_blocking() {
    let (tx, mut rx) = mpsc::channel::<(u8, String)>(0);
    let mut table = SenderTable::new();
    table.insert(1, tx);
    assert_eq!(table.get_and_try_send(1, message(1, "kept")), Delivery::Delivered);
    assert_eq!(table.get_and_try_send(1, message(2, "dropped")), Delivery::Rejected);
    assert_eq!(rx.try_recv(), Ok((1, "kept".to_string())));
    assert_eq!(rx.try_recv(), Err(mpsc::TryRecvError::Empty));
    assert_eq!(table.get_and_try_send(1, message(3, "again")), Delivery::Delivered);
    assert_eq!(rx.try_recv(), Ok((3, "again".to_string())));
}

#[test]
fn closed_channel_rejects() {
    let (tx, rx) = mpsc::channel::<(u8, String)>(4);
    let mut table = SenderTable::new();
    table.insert(1, tx);
    drop(rx);
    assert_eq!(table.get_and_try_send(1, message(1, "{}")), Delivery::Rejected);
    assert!(table.contains(1));
}

#[test]
fn send_to_one_key_leaves_the_others_alone() {
    let (tx_a, mut rx_a) = mpsc::channel::<(u8, String)>(4);
    let (tx_b, mut rx_b) = mpsc::channel::<(u8, String)>(4);
    let mut table = SenderTable::new();
    table.insert(1, tx_a);
    table.insert(2, tx_b);
    assert_eq!(table.len(), 2);
    assert_eq!(table.get_and_try_send(2, message(5, "b")), Delivery::Delivered);
    assert_eq!(rx_a.try_recv(), Err(mpsc::TryRecvError::Empty));
    assert_eq!(rx_b.try_recv(), Ok((5, "b".to_string())));
    assert_eq!(table.get_and_try_send(1, message(6, "a")), Delivery::Delivered);
    assert_eq!(rx_a.try_recv(), Ok((6, "a".to_string())));
    assert_eq!(rx_b.try_recv(), Err(mpsc::TryRecvError::Empty));
}

#[test]
fn outcome_of_a_send_result() {
    let (mut tx, rx) = mpsc::channel::<(u8, String)>(0);
    assert_eq!(Delivery::of_send(tx.try_send(message(1, "a"))), Delivery::Delivered);
    assert_eq!(Delivery::of_send(tx.try_send(message(1, "b"))), Delivery::Rejected);
    drop(rx);
    assert_eq!(Delivery::of_send(tx.try_send(message(1, "c"))), Delivery::Rejected);
}

#[test]
fn shared_registry_starts_empty() {
    let senders = Senders::new();
    assert_eq!(senders.get_and_try_send(1, message(1, "{}")), Delivery::NoDestination);
    let senders = Senders::default();
    assert_eq!(senders.get_and_try_send(1, message(1, "{}")), Delivery::NoDestination);
}

#[test]
fn shared_registry_delivers_to_the_registered_sender() {
    let (tx, mut rx) = mpsc::channel::<(u8, String)>(4);
    let senders = Senders::new();
    senders.insert(1, tx);
    assert_eq!(senders.get_and_try_send(1, message(4, "{\"x\":0}")), Delivery::Delivered);
    assert_eq!(senders.get_and_try_send(2, message(4, "{\"x\":0}")), Delivery::NoDestination);
    assert_eq!(rx.try_recv(), Ok((4, "{\"x\":0}".to_string())));
    assert_eq!(rx.try_recv(), Err(mpsc::TryRecvError::Empty));
}

#[test]
fn clone_of_a_registry_reaches_the_same_table() {
    let (tx, mut rx) = mpsc::channel::<(u8, String)>(4);
    let senders = Senders::new();
    let other = senders.clone();
    other.insert(1, tx);
    assert_eq!(senders.get_and_try_send(1, message(4, "{}")), Delivery::Delivered);
    assert_eq!(rx.try_recv(), Ok((4, "{}".to_string())));
}

#[test]
fn separate_registries_do_not_share() {
    let (tx, mut rx) = mpsc::channel::<(u8, String)>(4);
    let one = Senders::new();
    let two = Senders::new();
    one.insert(1, tx);
    assert_eq!(two.get_and_try_send(1, message(4, "{}")), Delivery::NoDestination);
    assert_eq!(rx.try_recv(), Err(mpsc::TryRecvError::Empty));
}

#[test]
fn shared_registry_replaces_on_second_insert() {
    let (tx_a, mut rx_a) = mpsc::channel::<(u8, String)>(4);
    let (tx_b, mut rx_b) = mpsc::channel::<(u8, String)>(4);
    let senders = Senders::new();
    senders.insert(9, tx_a);
    senders.insert(9, tx_b);
    assert_eq!(senders.get_and_try_send(9, message(1, "{}")), Delivery::Delivered);
    assert_eq!(rx_b.try_recv(), Ok((1, "{}".to_string())));
    assert_eq!(rx_a.try_recv(), Err(mpsc::TryRecvError::Closed));
}
