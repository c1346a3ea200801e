use vstd::prelude::*;

verus! {

/// Number of bytes in an account address.
pub const ADDRESS_LEN: usize = 20;

/// The account held in the low-order 20 bytes of a 32-byte word.
pub open spec fn low_order_address(word: Seq<u8>) -> Seq<u8> {
    word.subrange(12, 32)
}

/// Reads the account address carried by an indexed topic: its low-order
/// 20 bytes, byte for byte.
pub fn account_from_topic(topic: &[u8; 32]) -> (r: [u8; 20])
    ensures
        r@ == low_order_address(topic@),
{
    let mut out: [u8; 20] = [0u8; 20];
    let mut i: usize = 0;
    while i < ADDRESS_LEN
        invariant
            i <= 20,
            out@.len() == 20,
            forall|j: int| 0 <= j < i ==> out@[j] == topic@[j + 12],
        decreases 20 - i,
    {
        out[i] = topic[i + 12];
        i = i + 1;
    }
    assert(out@ =~= low_order_address(topic@));
    out
}


/// The zero address, used when no sender can be resolved.
pub open spec fn zero_address() -> Seq<u8> {
    Seq::new(20, |i: int| 0u8)
}

/// Uses the sender of a fetched transaction as the account, or the zero
/// address when the transaction records no sender.
pub fn sender_or_zero(from: Option<[u8; 20]>) -> (r: [u8; 20])
    ensures
        from is Some ==> r == from->Some_0,
        from is None ==> r@ == zero_address(),
{
    match from {
        Some(a) => a,
        None => {
            let z: [u8; 20] = [0u8; 20];
            assert(z@ =~= zero_address());
            z
        },
    }
}

/// A log entry as the node delivered it. Nothing in it is trusted yet.
pub struct LogEntry {
    pub transaction_hash: Option<[u8; 32]>,
    pub block_number: Option<u64>,
    /// The first topic is the event signature hash; the rest carry indexed
    /// arguments.
    pub topics: Vec<[u8; 32]>,
}

/// Why an entry could not become an event record.
#[derive(PartialEq, Eq, Structural, Clone, Copy, Debug)]
pub enum EventError {
    MissingTransactionHash,
    MissingBlockNumber,
    TransactionFetchFailed,
    TransactionNotFound,
    QueryFailed,
}

/// Where the originating account of an entry comes from.
#[derive(PartialEq, Eq, Clone, Copy, Debug)]
pub enum AccountSource {
    /// Read straight from the first indexed topic.
    Topic([u8; 20]),
    /// Taken from the sender of the transaction with this hash, which has to
    /// be fetched.
    TransactionSender([u8; 32]),
}

/// The identifying fields of a well-formed entry and how its account is
/// resolved.
#[derive(PartialEq, Eq, Clone, Copy, Debug)]
pub struct EventPlan {
    pub transaction_hash: [u8; 32],
    pub block_number: u64,
    pub account: AccountSource,
}

/// The account source owed to an entry with these topics and this
/// transaction hash.
pub open spec fn account_source_for(topics: Seq<[u8; 32]>, tx: [u8; 32], src: AccountSource) -> bool {
    if topics.len() > 1 {
        src is Topic && src->Topic_0@ == low_order_address(topics[1]@)
    } else {
        src == AccountSource::TransactionSender(tx)
    }
}

/// The plan that a well-formed entry yields.
pub open spec fn plans_entry(log: LogEntry, p: EventPlan) -> bool {
    &&& log.transaction_hash == Some(p.transaction_hash)
    &&& log.block_number == Some(p.block_number)
    &&& account_source_for(log.topics@, p.transaction_hash, p.account)
}

/// The error that a malformed entry yields.
pub open spec fn entry_error(log: LogEntry) -> Option<EventError> {
    if log.transaction_hash is None {
        Some(EventError::MissingTransactionHash)
    } else if log.block_number is None {
        Some(EventError::MissingBlockNumber)
    } else {
        None
    }
}

/// Checks that an entry carries its transaction hash and block number, and
/// decides how its originating account is resolved: from the second topic
/// when there is one, else from the sender of its transaction.
pub fn process_event(log: &LogEntry) -> (r: Result<EventPlan, EventError>)
    ensures
        match r {
            Ok(p) => entry_error(*log) is None && plans_entry(*log, p),
            Err(e) => entry_error(*log) == Some(e),
        },
{
    let tx_hash = match log.transaction_hash {
        Some(h) => h,
        None => return Err(EventError::MissingTransactionHash),
    };
    let block_number = match log.block_number {
        Some(b) => b,
        None => return Err(EventError::MissingBlockNumber),
    };
    let account = if log.topics.len() > 1 {
        AccountSource::Topic(account_from_topic(&log.topics[1]))
    } else {
        AccountSource::TransactionSender(tx_hash)
    };
    Ok(EventPlan { transaction_hash: tx_hash, block_number, account })
}

/// The record reported for one entry.
#[derive(PartialEq, Eq, Clone, Copy, Debug)]
pub struct DecodedEvent {
    pub transaction_hash: [u8; 32],
    pub block_number: u64,
    pub account: [u8; 20],
    /// The contract's observed value at `block_number`, as a big-endian
    /// 256-bit word.
    pub value: [u8; 32],
}

} // verus!
