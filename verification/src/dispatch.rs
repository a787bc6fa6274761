//! The action dispatcher: a fixed, build-time routing table.
//!
//! Each outbound action maps to the selector — a four-byte routing tag —
//! of the remote ledger's matching entry point.  The table never changes at
//! runtime and has no default branch: adding an action forces a decision
//! here.

use vstd::prelude::*;

verus! {

/// The two remote operations a bridge-out request can route to.
#[derive(Clone, Copy, PartialEq, Eq, Structural, Debug)]
pub enum Action {
    Deposit,
    Widthdaw,
}

/// Routing tag of the remote ledger's deposit entry point.
pub open spec fn deposit_selector() -> Seq<u8> {
    seq![240u8, 0u8, 0u8, 0u8]
}

/// Routing tag of the remote ledger's withdraw entry point.
pub open spec fn widthraw_selector() -> Seq<u8> {
    seq![250u8, 0u8, 0u8, 0u8]
}

/// The selector an action routes to.
pub open spec fn selector_spec(action: Action) -> Seq<u8> {
    match action {
        Action::Deposit => deposit_selector(),
        Action::Widthdaw => widthraw_selector(),
    }
}

/// Resolves an action against the routing table.
pub fn selector_of(action: Action) -> (r: [u8; 4])
    ensures
        r@ == selector_spec(action),
{
    match action {
        Action::Deposit => {
            let r: [u8; 4] = [240u8, 0u8, 0u8, 0u8];
            proof {
                assert(r@ =~= deposit_selector());
            }
            r
        }
        Action::Widthdaw => {
            let r: [u8; 4] = [250u8, 0u8, 0u8, 0u8];
            proof {
                assert(r@ =~= widthraw_selector());
            }
            r
        }
    }
}

/// Law: the routing table is injective — the two actions never collide on
/// one entry point.
pub proof fn lemma_selectors_distinct()
    ensures
        selector_spec(Action::Deposit) != selector_spec(Action::Widthdaw),
{
    assert(deposit_selector()[0] == 240);
    assert(widthraw_selector()[0] == 250);
}

} // verus!
