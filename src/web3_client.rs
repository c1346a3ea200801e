use vstd::prelude::*;

verus! {

/// Consecutive failed attempts after which connecting gives up.
pub const MAX_CONNECT_ATTEMPTS: u64 = 5;

/// Seconds to wait between two connection attempts.
pub const BACKOFF_SECS: u64 = 5;

/// Where the connection lifecycle stands.
#[derive(PartialEq, Eq, Structural, Clone, Copy, Debug)]
pub enum ConnectionStatus {
    Disconnected,
    Connecting,
    Connected,
}

/// What a caller may not get from the connection manager.
#[derive(PartialEq, Eq, Structural, Clone, Copy, Debug)]
pub enum ClientError {
    /// No connection has been made yet, or the last one was given up.
    NotConnected,
    /// Every attempt of one connect operation failed.
    ConnectionExhausted,
}

/// What follows one connection attempt.
#[derive(PartialEq, Eq, Structural, Clone, Copy, Debug)]
pub enum ConnectStep {
    /// The attempt succeeded and its handle is stored.
    Connected,
    /// The attempt failed; wait this many seconds, then try again.
    RetryAfter(u64),
    /// The attempt failed and was the last one allowed.
    Exhausted(ClientError),
}

/// What a failed attempt leads to, given how many attempts of the same
/// operation had failed before it.
pub open spec fn failure_step(failed_before: nat) -> ConnectStep {
    if failed_before + 1 >= MAX_CONNECT_ATTEMPTS {
        ConnectStep::Exhausted(ClientError::ConnectionExhausted)
    } else {
        ConnectStep::RetryAfter(BACKOFF_SECS)
    }
}

/// A connect operation whose attempts all fail makes exactly five of them:
/// each of the first four is followed by the fixed backoff, and the fifth
/// ends the operation with the exhaustion error.
pub proof fn lemma_connect_gives_up_after_five_failures()
    ensures
        forall|k: nat| k < 4 ==> #[trigger] failure_step(k) == ConnectStep::RetryAfter(5),
        failure_step(4) == ConnectStep::Exhausted(ClientError::ConnectionExhausted),
        MAX_CONNECT_ATTEMPTS == 5,
{
}

/// Owns the single handle to the remote node, of type `H`, and the count of
/// failed attempts of the connect operation under way.
pub struct Web3Client<H> {
    node_url: String,
    web3: Option<H>,
    attempts: u64,
    status: ConnectionStatus,
}

impl<H> Web3Client<H> {
    pub closed spec fn spec_node_url(&self) -> Seq<char> {
        self.node_url@
    }

    pub closed spec fn spec_handle(&self) -> Option<H> {
        self.web3
    }

    pub closed spec fn spec_attempts(&self) -> nat {
        self.attempts as nat
    }

    pub closed spec fn spec_status(&self) -> ConnectionStatus {
        self.status
    }

    /// A handle is held exactly while connected, and the attempt count never
    /// passes its ceiling and is zero once connected.
    pub open spec fn wf(&self) -> bool {
        &&& (self.spec_status() == ConnectionStatus::Connected) == (self.spec_handle() is Some)
        &&& self.spec_attempts() <= MAX_CONNECT_ATTEMPTS
        &&& self.spec_status() == ConnectionStatus::Connected ==> self.spec_attempts() == 0
        &&& self.spec_status() == ConnectionStatus::Connecting ==> self.spec_attempts() < MAX_CONNECT_ATTEMPTS
    }

    /// A client for the node at `node_url`, not yet connected.
    pub fn new(node_url: &str) -> (r: Self)
        ensures
            r.wf(),
            r.spec_node_url() == node_url@,
            r.spec_status() == ConnectionStatus::Disconnected,
            r.spec_handle() is None,
            r.spec_attempts() == 0,
    {
        Web3Client {
            node_url: node_url.to_string(),
            web3: None,
            attempts: 0,
            status: ConnectionStatus::Disconnected,
        }
    }

    pub fn node_url(&self) -> (r: &str)
        ensures
            r@ == self.spec_node_url(),
    {
        self.node_url.as_str()
    }

    pub fn status(&self) -> (r: ConnectionStatus)
        ensures
            r == self.spec_status(),
    {
        self.status
    }

    pub fn attempts(&self) -> (r: u64)
        ensures
            r == self.spec_attempts(),
    {
        self.attempts
    }

    /// Begins a connect operation. Any handle held so far is dropped as dead
    /// and the attempt count starts again from zero.
    pub fn start_connect(&mut self)
        requires
            old(self).wf(),
        ensures
            final(self).wf(),
            final(self).spec_status() == ConnectionStatus::Connecting,
            final(self).spec_handle() is None,
            final(self).spec_attempts() == 0,
            final(self).spec_node_url() == old(self).spec_node_url(),
    {
        self.web3 = None;
        self.attempts = 0;
        self.status = ConnectionStatus::Connecting;
    }

    /// Records the outcome of one attempt of the connect operation under
    /// way: the new handle, or `None` for a failure. A success stores the
    /// handle and clears the count; a failure counts, and the last allowed
    /// one ends the operation disconnected.
    pub fn record_attempt(&mut self, outcome: Option<H>) -> (r: ConnectStep)
        requires
            old(self).wf(),
            old(self).spec_status() == ConnectionStatus::Connecting,
        ensures
            final(self).wf(),
            final(self).spec_node_url() == old(self).spec_node_url(),
            outcome is Some ==> {
                &&& r == ConnectStep::Connected
                &&& final(self).spec_status() == ConnectionStatus::Connected
                &&& final(self).spec_handle() == outcome
                &&& final(self).spec_attempts() == 0
            },
            outcome is None ==> {
                &&& final(self).spec_handle() is None
                &&& final(self).spec_attempts() == old(self).spec_attempts() + 1
                &&& r == failure_step(old(self).spec_attempts())
                &&& if final(self).spec_attempts() >= MAX_CONNECT_ATTEMPTS {
                    &&& r == ConnectStep::Exhausted(ClientError::ConnectionExhausted)
                    &&& final(self).spec_status() == ConnectionStatus::Disconnected
                } else {
                    &&& r == ConnectStep::RetryAfter(BACKOFF_SECS)
                    &&& final(self).spec_status() == ConnectionStatus::Connecting
                }
            },
    {
        match outcome {
            Some(h) => {
                self.web3 = Some(h);
                self.attempts = 0;
                self.status = ConnectionStatus::Connected;
                ConnectStep::Connected
            },
            None => {
                self.attempts = self.attempts + 1;
                if self.attempts >= MAX_CONNECT_ATTEMPTS {
                    self.status = ConnectionStatus::Disconnected;
                    ConnectStep::Exhausted(ClientError::ConnectionExhausted)
                } else {
                    ConnectStep::RetryAfter(BACKOFF_SECS)
                }
            },
        }
    }

    /// The current handle, or `NotConnected` before any successful connect
    /// and after one was given up.
    pub fn web3(&self) -> (r: Result<&H, ClientError>)
        ensures
            match self.spec_handle() {
                Some(h) => r == Ok::<&H, ClientError>(&h),
                None => r == Err::<&H, ClientError>(ClientError::NotConnected),
            },
    {
        match &self.web3 {
            Some(h) => Ok(h),
            None => Err(ClientError::NotConnected),
        }
    }
}

} // verus!
