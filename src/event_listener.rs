use vstd::prelude::*;
use vstd::string::StringSliceAdditionalSpecFns;
use crate::contract::{
    process_event, sender_or_zero, entry_error, plans_entry, zero_address, AccountSource,
    DecodedEvent, EventError, EventPlan, LogEntry,
};
use crate::web3_client::{
    ClientError, ConnectStep, ConnectionStatus, Web3Client, BACKOFF_SECS, MAX_CONNECT_ATTEMPTS,
};

verus! {

/// Seconds to wait for the next log entry before the stream counts as
/// stalled.
pub const STALL_TIMEOUT_SECS: u64 = 300;

/// Canonical signature of the watched event.
pub const EVENT_SIGNATURE: &'static str = "NumberUpdatedEvent(address)";

/// The Keccak-256 digest of a byte string.
pub uninterp spec fn keccak256_of(bytes: Seq<u8>) -> Seq<u8>;

/// Relies on web3::signing::keccak256: the Keccak-256 digest of the bytes.
#[verifier::external_body]
fn keccak256(bytes: &[u8]) -> (r: [u8; 32])
    ensures
        r@ == keccak256_of(bytes@),
{
    web3::signing::keccak256(bytes)
}

/// Which log entries the node is asked to deliver: those of one contract
/// whose first topic is one event's signature hash.
#[derive(PartialEq, Eq, Clone, Copy, Debug)]
pub struct EventFilter {
    pub address: [u8; 20],
    pub topic: [u8; 32],
}

impl EventFilter {
    /// The filter for the watched event of the contract at `address`.
    pub fn for_event(address: [u8; 20]) -> (r: EventFilter)
        ensures
            r.address == address,
            r.topic@ == keccak256_of(EVENT_SIGNATURE.spec_bytes()),
    {
        EventFilter { address, topic: keccak256(EVENT_SIGNATURE.as_bytes()) }
    }
}


/// Why the loop left its subscription to reconnect.
#[derive(PartialEq, Eq, Structural, Clone, Copy, Debug)]
pub enum ReconnectCause {
    /// The node refused to open the subscription.
    SubscribeFailed,
    /// The stream delivered an entry that could not be read.
    MalformedEntry,
    /// An entry could not be turned into an event record.
    EventFailed(EventError),
    /// The node ended the stream without an error.
    StreamClosed,
    /// No entry arrived within the stall window.
    Stalled,
}

/// Whether a cause is a failure, as opposed to a stream that ended or went
/// quiet.
pub open spec fn is_fault(cause: ReconnectCause) -> bool {
    !(cause is StreamClosed || cause is Stalled)
}

/// Seconds to wait before reconnecting for a cause: the fixed backoff after
/// a failure, none after a closed or stalled stream.
pub open spec fn spec_reconnect_delay(cause: ReconnectCause) -> u64 {
    if is_fault(cause) {
        BACKOFF_SECS
    } else {
        0
    }
}

pub fn reconnect_delay(cause: ReconnectCause) -> (r: u64)
    ensures
        r == spec_reconnect_delay(cause),
{
    match cause {
        ReconnectCause::StreamClosed | ReconnectCause::Stalled => 0,
        _ => BACKOFF_SECS,
    }
}

/// Where the subscription loop stands.
#[derive(PartialEq, Eq, Clone, Copy, Debug)]
pub enum Phase {
    /// Waiting for the subscription to open.
    Subscribing,
    /// Waiting for the next log entry.
    Consuming,
    /// Waiting for the transaction whose sender is the entry's account.
    FetchingSender(EventPlan),
    /// Waiting for the contract's value at the entry's block, with the
    /// account already resolved.
    ReadingValue(EventPlan, [u8; 20]),
    /// Waiting for the outcome of a connection attempt.
    Reconnecting,
    /// Connecting was given up; nothing more happens.
    Stopped,
}

/// What the program observed after carrying out the last action.
pub enum ListenerEvent<H> {
    Subscribed,
    SubscribeFailed,
    EntryReceived(LogEntry),
    /// The stream yielded an error in place of an entry.
    EntryUnreadable,
    /// The stream ended without an error.
    StreamEnded,
    /// The stall window passed with no entry.
    TimedOut,
    /// The transaction was found; this is its sender, if it records one.
    TransactionFetched(Option<[u8; 20]>),
    /// The node knows no transaction with that hash.
    TransactionMissing,
    TransactionFetchFailed,
    /// The contract's value, as a big-endian 256-bit word.
    ValueRead([u8; 32]),
    ValueReadFailed,
    /// The outcome of one connection attempt: the new handle, or `None`.
    ConnectAttempt(Option<H>),
}

/// What the program is to do next.
#[derive(PartialEq, Eq, Clone, Copy, Debug)]
pub enum ListenerAction {
    /// Open the log subscription with the filter, on the current handle.
    OpenSubscription,
    /// Wait for the next entry, at most this many seconds.
    ReadNext(u64),
    /// Fetch the transaction with this hash.
    FetchTransaction([u8; 32]),
    /// Read the contract's value as of this block number.
    ReadValue(u64),
    /// Report the event, then wait for the next entry, at most this many
    /// seconds.
    Emit(DecodedEvent, u64),
    /// Drop the subscription, wait this many seconds, then make a
    /// connection attempt.
    Reconnect(ReconnectCause, u64),
    /// Wait this many seconds, then make another connection attempt.
    RetryConnect(u64),
    /// Stop for good with this error.
    Stop(ClientError),
    /// The event does not belong to the current phase and changed nothing.
    Ignore,
}

/// Turns the log stream of one contract event into event records, and
/// recovers from every fault by reconnecting and subscribing again.
pub struct EventListener<H> {
    contract_address: [u8; 20],
    filter: EventFilter,
    client: Web3Client<H>,
    phase: Phase,
}

/// The phase of the loop agrees with the state of its connection.
pub open spec fn phase_agrees(phase: Phase, status: ConnectionStatus) -> bool {
    match phase {
        Phase::Reconnecting => status == ConnectionStatus::Connecting,
        Phase::Stopped => status == ConnectionStatus::Disconnected,
        _ => status == ConnectionStatus::Connected,
    }
}

/// The two states differ only in their phase, which is now `phase`.
pub open spec fn moved_to<H>(pre: EventListener<H>, post: EventListener<H>, phase: Phase) -> bool {
    &&& post.spec_phase() == phase
    &&& post.spec_client() == pre.spec_client()
}

/// `post` and `act` follow from `pre` by the one reconnect transition,
/// which every fault, closure and stall takes.
pub open spec fn reconnects<H>(
    pre: EventListener<H>,
    post: EventListener<H>,
    act: ListenerAction,
    cause: ReconnectCause,
) -> bool {
    &&& act == ListenerAction::Reconnect(cause, spec_reconnect_delay(cause))
    &&& post.spec_phase() == Phase::Reconnecting
    &&& post.spec_client().spec_status() == ConnectionStatus::Connecting
    &&& post.spec_client().spec_handle() is None
    &&& post.spec_client().spec_attempts() == 0
    &&& post.spec_client().spec_node_url() == pre.spec_client().spec_node_url()
}

/// One step of the loop: from state `pre`, event `ev` leads to state `post`
/// and action `act`.
pub open spec fn transition<H>(
    pre: EventListener<H>,
    ev: ListenerEvent<H>,
    post: EventListener<H>,
    act: ListenerAction,
) -> bool {
    &&& post.spec_contract_address() == pre.spec_contract_address()
    &&& post.spec_filter() == pre.spec_filter()
    &&& match (pre.spec_phase(), ev) {
        (Phase::Subscribing, ListenerEvent::Subscribed) => {
            &&& moved_to(pre, post, Phase::Consuming)
            &&& act == ListenerAction::ReadNext(STALL_TIMEOUT_SECS)
        },
        (Phase::Subscribing, ListenerEvent::SubscribeFailed) => reconnects(
            pre,
            post,
            act,
            ReconnectCause::SubscribeFailed,
        ),
        (Phase::Consuming, ListenerEvent::EntryReceived(log)) => match entry_error(log) {
            Some(e) => reconnects(pre, post, act, ReconnectCause::EventFailed(e)),
            None => match post.spec_phase() {
                Phase::FetchingSender(p) => {
                    &&& plans_entry(log, p)
                    &&& p.account == AccountSource::TransactionSender(p.transaction_hash)
                    &&& post.spec_client() == pre.spec_client()
                    &&& act == ListenerAction::FetchTransaction(p.transaction_hash)
                },
                Phase::ReadingValue(p, a) => {
                    &&& plans_entry(log, p)
                    &&& p.account == AccountSource::Topic(a)
                    &&& post.spec_client() == pre.spec_client()
                    &&& act == ListenerAction::ReadValue(p.block_number)
                },
                _ => false,
            },
        },
        (Phase::Consuming, ListenerEvent::EntryUnreadable) => reconnects(
            pre,
            post,
            act,
            ReconnectCause::MalformedEntry,
        ),
        (Phase::Consuming, ListenerEvent::StreamEnded) => reconnects(
            pre,
            post,
            act,
            ReconnectCause::StreamClosed,
        ),
        (Phase::Consuming, ListenerEvent::TimedOut) => reconnects(
            pre,
            post,
            act,
            ReconnectCause::Stalled,
        ),
        (Phase::FetchingSender(p), ListenerEvent::TransactionFetched(from)) => {
            &&& post.spec_client() == pre.spec_client()
            &&& act == ListenerAction::ReadValue(p.block_number)
            &&& match post.spec_phase() {
                Phase::ReadingValue(q, a) => {
                    &&& q == p
                    &&& (from is Some ==> a == from->Some_0)
                    &&& (from is None ==> a@ == zero_address())
                },
                _ => false,
            }
        },
        (Phase::FetchingSender(p), ListenerEvent::TransactionMissing) => reconnects(
            pre,
            post,
            act,
            ReconnectCause::EventFailed(EventError::TransactionNotFound),
        ),
        (Phase::FetchingSender(p), ListenerEvent::TransactionFetchFailed) => reconnects(
            pre,
            post,
            act,
            ReconnectCause::EventFailed(EventError::TransactionFetchFailed),
        ),
        (Phase::ReadingValue(p, a), ListenerEvent::ValueRead(v)) => {
            &&& moved_to(pre, post, Phase::Consuming)
            &&& act == ListenerAction::Emit(
                (DecodedEvent {
                    transaction_hash: p.transaction_hash,
                    block_number: p.block_number,
                    account: a,
                    value: v,
                }),
                STALL_TIMEOUT_SECS,
            )
        },
        (Phase::ReadingValue(p, a), ListenerEvent::ValueReadFailed) => reconnects(
            pre,
            post,
            act,
            ReconnectCause::EventFailed(EventError::QueryFailed),
        ),
        (Phase::Reconnecting, ListenerEvent::ConnectAttempt(outcome)) => {
            let c0 = pre.spec_client();
            let c1 = post.spec_client();
            &&& c1.spec_node_url() == c0.spec_node_url()
            &&& match outcome {
                Some(h) => {
                    &&& post.spec_phase() == Phase::Subscribing
                    &&& act == ListenerAction::OpenSubscription
                    &&& c1.spec_status() == ConnectionStatus::Connected
                    &&& c1.spec_handle() == Some(h)
                    &&& c1.spec_attempts() == 0
                },
                None => {
                    &&& c1.spec_handle() is None
                    &&& c1.spec_attempts() == c0.spec_attempts() + 1
                    &&& if c1.spec_attempts() >= MAX_CONNECT_ATTEMPTS {
                        &&& post.spec_phase() == Phase::Stopped
                        &&& act == ListenerAction::Stop(ClientError::ConnectionExhausted)
                    } else {
                        &&& post.spec_phase() == Phase::Reconnecting
                        &&& act == ListenerAction::RetryConnect(BACKOFF_SECS)
                    }
                },
            }
        },
        _ => {
            &&& post == pre
            &&& act == ListenerAction::Ignore
        },
    }
}

/// An entry that carries a second topic has its account read from that
/// topic's low-order 20 bytes, with no transaction fetched; the contract is
/// then read at the entry's own block, and the record reports that block,
/// that account and the value read.
pub proof fn lemma_topic_account_read_in_place<H>(
    pre: EventListener<H>,
    log: LogEntry,
    mid: EventListener<H>,
    a1: ListenerAction,
    v: [u8; 32],
    post: EventListener<H>,
    a2: ListenerAction,
)
    requires
        pre.wf(),
        pre.spec_phase() == Phase::Consuming,
        log.transaction_hash is Some,
        log.block_number is Some,
        log.topics@.len() > 1,
        transition(pre, ListenerEvent::EntryReceived(log), mid, a1),
        transition(mid, ListenerEvent::ValueRead(v), post, a2),
    ensures
        a1 == ListenerAction::ReadValue(log.block_number->Some_0),
        a2 is Emit,
        a2->Emit_1 == STALL_TIMEOUT_SECS,
        a2->Emit_0.transaction_hash == log.transaction_hash->Some_0,
        a2->Emit_0.block_number == log.block_number->Some_0,
        a2->Emit_0.account@ == crate::contract::low_order_address(log.topics@[1]@),
        a2->Emit_0.value == v,
        post.spec_phase() == Phase::Consuming,
{
}

/// An entry without a second topic has its account taken from the sender of
/// its transaction, or the zero address when that records none; the
/// contract is then read at the entry's own block.
pub proof fn lemma_sender_account_fetched<H>(
    pre: EventListener<H>,
    log: LogEntry,
    s1: EventListener<H>,
    a1: ListenerAction,
    from: Option<[u8; 20]>,
    s2: EventListener<H>,
    a2: ListenerAction,
    v: [u8; 32],
    post: EventListener<H>,
    a3: ListenerAction,
)
    requires
        pre.wf(),
        pre.spec_phase() == Phase::Consuming,
        log.transaction_hash is Some,
        log.block_number is Some,
        log.topics@.len() <= 1,
        transition(pre, ListenerEvent::EntryReceived(log), s1, a1),
        transition(s1, ListenerEvent::TransactionFetched(from), s2, a2),
        transition(s2, ListenerEvent::ValueRead(v), post, a3),
    ensures
        a1 == ListenerAction::FetchTransaction(log.transaction_hash->Some_0),
        a2 == ListenerAction::ReadValue(log.block_number->Some_0),
        a3 is Emit,
        a3->Emit_0.transaction_hash == log.transaction_hash->Some_0,
        a3->Emit_0.block_number == log.block_number->Some_0,
        from is Some ==> a3->Emit_0.account == from->Some_0,
        from is None ==> a3->Emit_0.account@ == zero_address(),
        a3->Emit_0.value == v,
{
}

/// When the node closes the stream, the loop asks for exactly one
/// reconnect, with no backoff and not as a fault; events other than a
/// connection attempt change nothing meanwhile, and the first successful
/// attempt leads straight to subscribing again on the new handle.
pub proof fn lemma_stream_closure_reconnects_once<H>(
    pre: EventListener<H>,
    s1: EventListener<H>,
    a1: ListenerAction,
    h: H,
    post: EventListener<H>,
    a2: ListenerAction,
)
    requires
        pre.wf(),
        pre.spec_phase() == Phase::Consuming,
        transition(pre, ListenerEvent::StreamEnded, s1, a1),
        transition(s1, ListenerEvent::ConnectAttempt(Some(h)), post, a2),
    ensures
        a1 == ListenerAction::Reconnect(ReconnectCause::StreamClosed, 0),
        !is_fault(ReconnectCause::StreamClosed),
        s1.spec_phase() == Phase::Reconnecting,
        forall|ev: ListenerEvent<H>, s: EventListener<H>, a: ListenerAction|
            !(ev is ConnectAttempt) && #[trigger] transition(s1, ev, s, a) ==> s == s1 && a
                == ListenerAction::Ignore,
        a2 == ListenerAction::OpenSubscription,
        post.spec_phase() == Phase::Subscribing,
        post.spec_client().spec_handle() == Some(h),
{
}

/// When the stall window passes with no entry, the loop leaves the read
/// phase and reconnects at once, and a stall is not counted as a fault.
pub proof fn lemma_stall_reconnects<H>(
    pre: EventListener<H>,
    post: EventListener<H>,
    a: ListenerAction,
)
    requires
        pre.wf(),
        pre.spec_phase() == Phase::Consuming,
        transition(pre, ListenerEvent::TimedOut, post, a),
    ensures
        a == ListenerAction::Reconnect(ReconnectCause::Stalled, 0),
        !is_fault(ReconnectCause::Stalled),
        post.spec_phase() == Phase::Reconnecting,
        post.spec_client().spec_status() == ConnectionStatus::Connecting,
{
}

impl<H> EventListener<H> {
    pub closed spec fn spec_contract_address(&self) -> [u8; 20] {
        self.contract_address
    }

    pub closed spec fn spec_filter(&self) -> EventFilter {
        self.filter
    }

    pub closed spec fn spec_client(&self) -> Web3Client<H> {
        self.client
    }

    pub closed spec fn spec_phase(&self) -> Phase {
        self.phase
    }

    pub open spec fn wf(&self) -> bool {
        &&& self.spec_client().wf()
        &&& self.spec_filter().address == self.spec_contract_address()
        &&& phase_agrees(self.spec_phase(), self.spec_client().spec_status())
        &&& match self.spec_phase() {
            Phase::FetchingSender(p) => p.account == AccountSource::TransactionSender(
                p.transaction_hash,
            ),
            _ => true,
        }
    }

    /// A listener for the watched event of the contract at
    /// `contract_address`. With a connected client it starts by subscribing;
    /// otherwise it starts a connect operation first.
    pub fn new(client: Web3Client<H>, contract_address: [u8; 20]) -> (r: Self)
        requires
            client.wf(),
        ensures
            r.wf(),
            r.spec_contract_address() == contract_address,
            r.spec_filter().address == contract_address,
            r.spec_filter().topic@ == keccak256_of(EVENT_SIGNATURE.spec_bytes()),
            r.spec_client().spec_node_url() == client.spec_node_url(),
            client.spec_status() == ConnectionStatus::Connected ==> {
                &&& r.spec_phase() == Phase::Subscribing
                &&& r.spec_client() == client
            },
            client.spec_status() != ConnectionStatus::Connected ==> {
                &&& r.spec_phase() == Phase::Reconnecting
                &&& r.spec_client().spec_attempts() == 0
            },
    {
        let mut client = client;
        let phase = match client.status() {
            ConnectionStatus::Connected => Phase::Subscribing,
            _ => {
                client.start_connect();
                Phase::Reconnecting
            },
        };
        EventListener { contract_address, filter: EventFilter::for_event(contract_address), client, phase }
    }

    /// The action that starts the loop from its current phase.
    pub fn first_action(&self) -> (r: ListenerAction)
        ensures
            self.spec_phase() == Phase::Subscribing ==> r == ListenerAction::OpenSubscription,
            self.spec_phase() == Phase::Reconnecting ==> r == ListenerAction::RetryConnect(0),
            !(self.spec_phase() == Phase::Subscribing || self.spec_phase() == Phase::Reconnecting)
                ==> r == ListenerAction::Ignore,
    {
        match self.phase {
            Phase::Subscribing => ListenerAction::OpenSubscription,
            Phase::Reconnecting => ListenerAction::RetryConnect(0),
            _ => ListenerAction::Ignore,
        }
    }

    pub fn contract_address(&self) -> (r: [u8; 20])
        ensures
            r == self.spec_contract_address(),
    {
        self.contract_address
    }

    pub fn filter(&self) -> (r: EventFilter)
        ensures
            r == self.spec_filter(),
    {
        self.filter
    }

    pub fn phase(&self) -> (r: Phase)
        ensures
            r == self.spec_phase(),
    {
        self.phase
    }

    pub fn client(&self) -> (r: &Web3Client<H>)
        ensures
            *r == self.spec_client(),
    {
        &self.client
    }

    /// The handle to subscribe and read on, or `NotConnected` while a
    /// connect operation is under way or after it was given up.
    pub fn web3(&self) -> (r: Result<&H, ClientError>)
        ensures
            match self.spec_client().spec_handle() {
                Some(h) => r == Ok::<&H, ClientError>(&h),
                None => r == Err::<&H, ClientError>(ClientError::NotConnected),
            },
    {
        self.client.web3()
    }

    /// The transition shared by every fault, closure and stall: drop the
    /// handle, start a fresh connect operation, and wait as the cause asks.
    fn begin_reconnect(&mut self, cause: ReconnectCause) -> (r: ListenerAction)
        requires
            old(self).wf(),
        ensures
            final(self).wf(),
            final(self).spec_contract_address() == old(self).spec_contract_address(),
            final(self).spec_filter() == old(self).spec_filter(),
            reconnects(*old(self), *final(self), r, cause),
    {
        self.client.start_connect();
        self.phase = Phase::Reconnecting;
        ListenerAction::Reconnect(cause, reconnect_delay(cause))
    }

    /// Takes the loop one step on from what the program observed, and says
    /// what it is to do next.
    pub fn step(&mut self, ev: ListenerEvent<H>) -> (r: ListenerAction)
        requires
            old(self).wf(),
        ensures
            final(self).wf(),
            transition(*old(self), ev, *final(self), r),
    {
        match self.phase {
            Phase::Subscribing => match ev {
                ListenerEvent::Subscribed => {
                    self.phase = Phase::Consuming;
                    ListenerAction::ReadNext(STALL_TIMEOUT_SECS)
                },
                ListenerEvent::SubscribeFailed => self.begin_reconnect(
                    ReconnectCause::SubscribeFailed,
                ),
                _ => ListenerAction::Ignore,
            },
            Phase::Consuming => match ev {
                ListenerEvent::EntryReceived(log) => match process_event(&log) {
                    Ok(p) => match p.account {
                        AccountSource::Topic(a) => {
                            self.phase = Phase::ReadingValue(p, a);
                            ListenerAction::ReadValue(p.block_number)
                        },
                        AccountSource::TransactionSender(h) => {
                            self.phase = Phase::FetchingSender(p);
                            ListenerAction::FetchTransaction(h)
                        },
                    },
                    Err(e) => self.begin_reconnect(ReconnectCause::EventFailed(e)),
                },
                ListenerEvent::EntryUnreadable => self.begin_reconnect(
                    ReconnectCause::MalformedEntry,
                ),
                ListenerEvent::StreamEnded => self.begin_reconnect(ReconnectCause::StreamClosed),
                ListenerEvent::TimedOut => self.begin_reconnect(ReconnectCause::Stalled),
                _ => ListenerAction::Ignore,
            },
            Phase::FetchingSender(p) => match ev {
                ListenerEvent::TransactionFetched(from) => {
                    self.phase = Phase::ReadingValue(p, sender_or_zero(from));
                    ListenerAction::ReadValue(p.block_number)
                },
                ListenerEvent::TransactionMissing => self.begin_reconnect(
                    ReconnectCause::EventFailed(EventError::TransactionNotFound),
                ),
                ListenerEvent::TransactionFetchFailed => self.begin_reconnect(
                    ReconnectCause::EventFailed(EventError::TransactionFetchFailed),
                ),
                _ => ListenerAction::Ignore,
            },
            Phase::ReadingValue(p, a) => match ev {
                ListenerEvent::ValueRead(v) => {
                    self.phase = Phase::Consuming;
                    ListenerAction::Emit(
                        DecodedEvent {
                            transaction_hash: p.transaction_hash,
                            block_number: p.block_number,
                            account: a,
                            value: v,
                        },
                        STALL_TIMEOUT_SECS,
                    )
                },
                ListenerEvent::ValueReadFailed => self.begin_reconnect(
                    ReconnectCause::EventFailed(EventError::QueryFailed),
                ),
                _ => ListenerAction::Ignore,
            },
            Phase::Reconnecting => match ev {
                ListenerEvent::ConnectAttempt(outcome) => match self.client.record_attempt(outcome) {
                    ConnectStep::Connected => {
                        self.phase = Phase::Subscribing;
                        ListenerAction::OpenSubscription
                    },
                    ConnectStep::RetryAfter(d) => ListenerAction::RetryConnect(d),
                    ConnectStep::Exhausted(e) => {
                        self.phase = Phase::Stopped;
                        ListenerAction::Stop(e)
                    },
                },
                _ => ListenerAction::Ignore,
            },
            Phase::Stopped => ListenerAction::Ignore,
        }
    }
}

} // verus!
