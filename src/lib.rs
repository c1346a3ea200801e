//! Watches one contract event stream over a persistent node connection.
//!
//! The library holds the decisions: how a raw log entry becomes an event
//! record, how connection attempts are counted against their ceiling, and
//! how the subscription loop recovers from every kind of fault. The program
//! around it performs the network work that each decision asks for.
pub mod contract;
pub mod web3_client;
pub mod event_listener;
