//! Identifiers of the values the bridge moves and the parties it serves.

use vstd::prelude::*;

verus! {

/// Opaque identifier of a bridgeable asset (or its local proxy).
///
/// On the host chain a token is addressed by a hash; the ledger only ever
/// compares tokens for equality, so one machine word of identity suffices.
#[derive(Clone, Copy, PartialEq, Eq, Structural, Debug)]
pub struct Token {
    pub id: u64,
}

/// Identifier of an account: a depositor, a withdrawer, a contract, or a
/// bridge recipient.
#[derive(Clone, Copy, PartialEq, Eq, Structural, Debug)]
pub struct Agent {
    pub id: u64,
}

} // verus!
