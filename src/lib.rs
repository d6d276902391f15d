//! The protocol engine for cross-chain interoperability (light clients,
//! connection and channel handshakes, packet lifecycle) and the
//! transaction pipeline that hosts it.
//!
//! Checks read a snapshot of the chain's state and say whether a message is
//! accepted; executes apply an accepted message. Proofs about the
//! counterparty chain are verified outside the engine: the engine names the
//! record a proof must show and the root it must verify against, and takes
//! the verdict as an argument.

pub mod error;
pub mod ident;
pub mod state;
pub mod client;
pub mod connection;
pub mod transfer;
pub mod stateless;
pub mod channel;
pub mod packet;
pub mod encoding;
pub mod event;
pub mod transaction;
pub mod action;
pub mod reserves;
pub mod governance;
pub mod balance;
