//! A cross-chain value bridge paired with an escrow ledger.
//!
//! The escrow ledger tracks, per token, how much value is allowed to move,
//! and records each agent's deposits and withdrawals against that allowance.
//! A bridge gateway turns inbound notifications into events and routes
//! outbound requests to the matching entry point of a remote ledger; a
//! failing outbound request aborts with no observable effect.
//!
//! The host chain's side of each operation — storage of the ledger, event
//! delivery, and the firing of remote calls — is left to the embedding
//! program: the library computes every decision and state change and hands
//! the host plain values to act on.

pub mod bridge;
pub mod dispatch;
pub mod escrow;
pub mod ids;
pub mod table;
pub mod transfer;
