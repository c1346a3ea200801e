use event_watch::contract::{DecodedEvent, EventError, LogEntry};
use event_watch::event_listener::{
    reconnect_delay, EventFilter, EventListener, ListenerAction, ListenerEvent, Phase,
    ReconnectCause, EVENT_SIGNATURE, STALL_TIMEOUT_SECS,
};
use event_watch::web3_client::{ClientError, ConnectionStatus, Web3Client};

fn contract_address() -> [u8; 20] {
    let mut a = [0u8; 20];
    a[0] = 0xAB;
    a[1] = 0xCD;
    a
}

fn account() -> [u8; 20] {
    let mut a = [0u8; 20];
    a[17] = 0xAC;
    a[18] = 0xC7;
    a[19] = 0x01;
    a
}

fn connected(handle: u32) -> EventListener<u32> {
    let mut c: Web3Client<u32> = Web3Client::new("ws://node");
    c.start_connect();
    c.record_attempt(Some(handle));
    EventListener::new(c, contract_address())
}

fn consuming(handle: u32) -> EventListener<u32> {
    let mut l = connected(handle);
    assert_eq!(l.step(ListenerEvent::Subscribed), ListenerAction::ReadNext(STALL_TIMEOUT_SECS));
    l
}

fn sig_hash() -> [u8; 32] {
    web3::signing::keccak256(b"NumberUpdatedEvent(address)")
}

#[test]
fn filter_is_keyed_on_signature_hash() {
    let f = EventFilter::for_event(contract_address());
    assert_eq!(EVENT_SIGNATURE, "NumberUpdatedEvent(address)");
    assert_eq!(f.address, contract_address());
    assert_eq!(f.topic, sig_hash());
    assert_ne!(f.topic, [0u8; 32]);
}

#[test]
fn end_to_end_entry_at_block_1000() {
    let mut l = connected(1);
    assert_eq!(l.first_action(), ListenerAction::OpenSubscription);
    assert_eq!(l.web3(), Ok(&1));
    assert_eq!(l.filter().address, contract_address());
    assert_eq!(l.filter().topic, sig_hash());
    l.step(ListenerEvent::Subscribed);
    let mut second = [0u8; 32];
    second[12..32].copy_from_slice(&account());
    let tx = [0x11u8; 32];
    let log = LogEntry { transaction_hash: Some(tx), block_number: Some(1000), topics: vec![sig_hash(), second] };
    assert_eq!(l.step(ListenerEvent::EntryReceived(log)), ListenerAction::ReadValue(1000));
    let mut value = [0u8; 32];
    value[31] = 42;
    let expected = DecodedEvent { transaction_hash: tx, block_number: 1000, account: account(), value };
    assert_eq!(l.step(ListenerEvent::ValueRead(value)), ListenerAction::Emit(expected, STALL_TIMEOUT_SECS));
    assert_eq!(l.phase(), Phase::Consuming);
}

#[test]
fn entry_without_topic_fetches_sender() {
    let mut l = consuming(1);
    let tx = [0x22u8; 32];
    let log = LogEntry { transaction_hash: Some(tx), block_number: Some(12), topics: vec![sig_hash()] };
    assert_eq!(l.step(ListenerEvent::EntryReceived(log)), ListenerAction::FetchTransaction(tx));
    assert_eq!(l.step(ListenerEvent::TransactionFetched(Some([5u8; 20]))), ListenerAction::ReadValue(12));
    let value = [1u8; 32];
    let expected = DecodedEvent { transaction_hash: tx, block_number: 12, account: [5u8; 20], value };
    assert_eq!(l.step(ListenerEvent::ValueRead(value)), ListenerAction::Emit(expected, STALL_TIMEOUT_SECS));
}

#[test]
fn transaction_without_sender_gives_zero_address() {
    let mut l = consuming(1);
    let tx = [0x33u8; 32];
    let log = LogEntry { transaction_hash: Some(tx), block_number: Some(3), topics: vec![] };
    l.step(ListenerEvent::EntryReceived(log));
    assert_eq!(l.step(ListenerEvent::TransactionFetched(None)), ListenerAction::ReadValue(3));
    let expected = DecodedEvent { transaction_hash: tx, block_number: 3, account: [0u8; 20], value: [9u8; 32] };
    assert_eq!(l.step(ListenerEvent::ValueRead([9u8; 32])), ListenerAction::Emit(expected, STALL_TIMEOUT_SECS));
}

#[test]
fn stream_closure_reconnects_once_then_resubscribes() {
    let mut l = consuming(1);
    assert_eq!(l.step(ListenerEvent::StreamEnded), ListenerAction::Reconnect(ReconnectCause::StreamClosed, 0));
    assert_eq!(l.phase(), Phase::Reconnecting);
    assert_eq!(l.web3(), Err(ClientError::NotConnected));
    assert_eq!(l.step(ListenerEvent::StreamEnded), ListenerAction::Ignore);
    assert_eq!(l.step(ListenerEvent::Subscribed), ListenerAction::Ignore);
    assert_eq!(l.step(ListenerEvent::ConnectAttempt(Some(2))), ListenerAction::OpenSubscription);
    assert_eq!(l.phase(), Phase::Subscribing);
    assert_eq!(l.web3(), Ok(&2));
}

#[test]
fn stall_reconnects_without_backoff() {
    let mut l = consuming(1);
    assert_eq!(l.step(ListenerEvent::TimedOut), ListenerAction::Reconnect(ReconnectCause::Stalled, 0));
    assert_eq!(l.client().status(), ConnectionStatus::Connecting);
    assert_eq!(l.client().attempts(), 0);
}

#[test]
fn faults_reconnect_after_backoff() {
    let mut l = connected(1);
    assert_eq!(l.step(ListenerEvent::SubscribeFailed), ListenerAction::Reconnect(ReconnectCause::SubscribeFailed, 5));
    let mut l = consuming(1);
    assert_eq!(l.step(ListenerEvent::EntryUnreadable), ListenerAction::Reconnect(ReconnectCause::MalformedEntry, 5));
    let mut l = consuming(1);
    let log = LogEntry { transaction_hash: Some([1u8; 32]), block_number: None, topics: vec![] };
    assert_eq!(
        l.step(ListenerEvent::EntryReceived(log)),
        ListenerAction::Reconnect(ReconnectCause::EventFailed(EventError::MissingBlockNumber), 5)
    );
    let mut l = consuming(1);
    let log = LogEntry { transaction_hash: Some([1u8; 32]), block_number: Some(4), topics: vec![] };
    l.step(ListenerEvent::EntryReceived(log));
    assert_eq!(
        l.step(ListenerEvent::TransactionMissing),
        ListenerAction::Reconnect(ReconnectCause::EventFailed(EventError::TransactionNotFound), 5)
    );
    assert_eq!(reconnect_delay(ReconnectCause::EventFailed(EventError::QueryFailed)), 5);
    assert_eq!(reconnect_delay(ReconnectCause::Stalled), 0);
}

#[test]
fn reconnect_gives_up_after_five_failed_attempts() {
    let mut l = consuming(1);
    l.step(ListenerEvent::TimedOut);
    for _ in 0..4 {
        assert_eq!(l.step(ListenerEvent::ConnectAttempt(None)), ListenerAction::RetryConnect(5));
    }
    assert_eq!(l.step(ListenerEvent::ConnectAttempt(None)), ListenerAction::Stop(ClientError::ConnectionExhausted));
    assert_eq!(l.phase(), Phase::Stopped);
    assert_eq!(l.step(ListenerEvent::ConnectAttempt(Some(3))), ListenerAction::Ignore);
}

#[test]
fn unconnected_client_starts_by_connecting() {
    let c: Web3Client<u32> = Web3Client::new("ws://node");
    let mut l = EventListener::new(c, contract_address());
    assert_eq!(l.phase(), Phase::Reconnecting);
    assert_eq!(l.first_action(), ListenerAction::RetryConnect(0));
    assert_eq!(l.step(ListenerEvent::ConnectAttempt(Some(8))), ListenerAction::OpenSubscription);
}
