//! The bridge gateway for token amounts: inbound notifications and
//! outbound requests routed through the action dispatcher.
//!
//! The gateway itself holds no ledger: an inbound notification is only
//! re-emitted as an event, and an outbound request becomes one synchronous
//! call into a remote ledger.  The host fires that call; the gateway
//! decides everything around it — recipient validation, selector
//! resolution, and whether an event may be emitted — and a failure anywhere
//! aborts the whole operation with no event and no state change.

use vstd::prelude::*;

use crate::dispatch::{deposit_selector, selector_of, selector_spec, widthraw_selector, Action};
use crate::escrow::{deposit_model, widthraw_model, Escrow};
use crate::ids::{Agent, Token};

verus! {

/// Event: an inbound transfer of `amount` of `token_address`, originating
/// on `from_chain`, addressed to this gateway.
#[derive(PartialEq, Eq, Debug)]
pub struct BridgeIn {
    pub token_address: Token,
    pub recipient: Agent,
    pub from_chain: String,
    pub amount: u128,
}

/// Event: an outbound transfer of `amount` of `token_address`, carried out
/// for `agent` by the remote ledger at `recipient`.
#[derive(Clone, Copy, PartialEq, Eq, Structural, Debug)]
pub struct BridgeOut {
    pub token_address: Token,
    pub recipient: Agent,
    pub agent: Agent,
    pub amount: u128,
}

/// Why a bridge operation refused to act.
#[derive(Clone, Copy, PartialEq, Eq, Structural, Debug)]
pub enum BridgeError {
    /// The outbound target is not contract-capable.  Checked before any
    /// call is made, so value can never be sent at an address with no
    /// matching entry point.
    InvalidRecipient,
    /// The remote call failed, for whatever reason the callee had; the
    /// whole outbound operation aborts with no event.
    RemoteCallFailure,
}

/// One synchronous call into a remote ledger: the callee, the routing tag,
/// and the arguments in the fixed order (token, amount, agent).
#[derive(Clone, Copy, PartialEq, Eq, Debug)]
pub struct RemoteCall {
    pub callee: Agent,
    pub selector: [u8; 4],
    pub token: Token,
    pub amount: u128,
    pub agent: Agent,
}

/// Fault reported by a remote ledger invocation.  Any of these aborts the
/// remote call as a whole, and the caller sees it only as a failure.
#[derive(Clone, Copy, PartialEq, Eq, Structural, Debug)]
pub enum RemoteFault {
    /// The call's selector matches no entry point on the callee.
    UnknownEntryPoint,
    /// The callee's ledger has no allowance entry for the token.
    UnknownToken,
    /// The withdrawal asked for more than the callee's allowance.
    InsufficientAllowance,
    /// The deposit would have grown the allowance past its balance type.
    AllowanceOverflow,
}

/// The bridge gateway.  It keeps no mutable state; its one datum is the
/// identity the host chain gave this contract instance.
pub struct BridgeTransferContract {
    /// This gateway's own address, the recipient of inbound transfers.
    pub account_id: Agent,
}

impl BridgeTransferContract {
    /// A gateway under the identity the host assigned it.
    pub fn new(account_id: Agent) -> (r: Self)
        ensures
            r.account_id == account_id,
    {
        BridgeTransferContract { account_id }
    }

    /// Inbound notification: always succeeds, never touches any ledger.
    /// The returned event — with this gateway as recipient — is the
    /// operation's only output.
    pub fn bridge_in(&self, token_address: Token, from_chain: String, amount: u128) -> (e: BridgeIn)
        ensures
            e.token_address == token_address,
            e.recipient == self.account_id,
            e.from_chain == from_chain,
            e.amount == amount,
    {
        let recipient = self.account_id;
        BridgeIn { token_address, recipient, from_chain, amount }
    }

    /// Outbound request: refuses a recipient that is not contract-capable
    /// before anything else happens, and otherwise resolves the action's
    /// routing tag and hands back the remote call to fire.
    /// `recipient_is_contract` is the host's answer to whether `recipient`
    /// is a contract; nothing is emitted here — an event may come only
    /// from `bridge_out_complete`, after the call was fired.
    pub fn bridge_out(
        &self,
        token_address: Token,
        agent: Agent,
        amount: u128,
        action: Action,
        recipient: Agent,
        recipient_is_contract: bool,
    ) -> (r: Result<RemoteCall, BridgeError>)
        ensures
            r is Ok <==> recipient_is_contract,
            !recipient_is_contract ==> r == Err::<RemoteCall, BridgeError>(BridgeError::InvalidRecipient),
            r is Ok ==> r->Ok_0.callee == recipient
                && r->Ok_0.selector@ == selector_spec(action)
                && r->Ok_0.token == token_address
                && r->Ok_0.amount == amount
                && r->Ok_0.agent == agent,
    {
        if !recipient_is_contract {
            return Err(BridgeError::InvalidRecipient);
        }
        let selector = selector_of(action);
        Ok(RemoteCall { callee: recipient, selector, token: token_address, amount, agent })
    }

    /// Completion of an outbound request, given the host's report on the
    /// fired call.  Success yields the `BridgeOut` event; failure aborts
    /// the whole operation — no event exists to emit.
    pub fn bridge_out_complete(&self, call: &RemoteCall, call_succeeded: bool) -> (r: Result<
        BridgeOut,
        BridgeError,
    >)
        ensures
            r is Ok <==> call_succeeded,
            call_succeeded ==> r == Ok::<BridgeOut, BridgeError>((BridgeOut {
                token_address: call.token,
                recipient: call.callee,
                agent: call.agent,
                amount: call.amount,
            })),
            !call_succeeded ==> r == Err::<BridgeOut, BridgeError>(BridgeError::RemoteCallFailure),
    {
        if call_succeeded {
            Ok(BridgeOut {
                token_address: call.token,
                recipient: call.callee,
                agent: call.agent,
                amount: call.amount,
            })
        } else {
            Err(BridgeError::RemoteCallFailure)
        }
    }
}

/// The callee's side of a fired call: routes the selector through the
/// published entry-point registry of an escrow ledger and invokes the
/// matching operation with the call's arguments, in their fixed order.
/// Any fault — unknown entry point, unknown token, insufficient allowance,
/// or an overflowing deposit, on which the remote host would abort — leaves
/// the ledger exactly as it was, events included.
pub fn apply_remote_call(ledger: &mut Escrow, call: &RemoteCall) -> (r: Result<(), RemoteFault>)
    requires
        old(ledger).wf(),
    ensures
        final(ledger).wf(),
        r is Err ==> final(ledger)@ == old(ledger)@,
        call.selector@ != deposit_selector() && call.selector@ != widthraw_selector()
            ==> r == Err::<(), RemoteFault>(RemoteFault::UnknownEntryPoint),
        call.selector@ == deposit_selector() ==> {
            let m = old(ledger)@;
            if !m.allowances.contains_key(call.token) {
                r == Err::<(), RemoteFault>(RemoteFault::UnknownToken)
            } else if m.allowances[call.token] + call.amount > u128::MAX {
                r == Err::<(), RemoteFault>(RemoteFault::AllowanceOverflow)
            } else {
                r is Ok && final(ledger)@ == deposit_model(m, call.token, call.amount, call.agent)
            }
        },
        call.selector@ == widthraw_selector() ==> {
            let m = old(ledger)@;
            if !m.allowances.contains_key(call.token) {
                r == Err::<(), RemoteFault>(RemoteFault::UnknownToken)
            } else if call.amount > m.allowances[call.token] {
                r == Err::<(), RemoteFault>(RemoteFault::InsufficientAllowance)
            } else {
                r is Ok && final(ledger)@ == widthraw_model(m, call.token, call.amount, call.agent)
            }
        },
{
    if call.selector[0] == 240u8 && call.selector[1] == 0u8 && call.selector[2] == 0u8
        && call.selector[3] == 0u8 {
        proof {
            assert(call.selector@ =~= deposit_selector());
        }
        let allowance = match ledger.get_allowance(call.token) {
            Some(a) => a,
            None => {
                return Err(RemoteFault::UnknownToken);
            }
        };
        if call.amount > u128::MAX - allowance {
            return Err(RemoteFault::AllowanceOverflow);
        }
        match ledger.deposit(call.token, call.amount, call.agent) {
            Ok(()) => Ok(()),
            Err(_) => {
                proof {
                    assert(false);
                }
                Err(RemoteFault::UnknownToken)
            }
        }
    } else if call.selector[0] == 250u8 && call.selector[1] == 0u8 && call.selector[2] == 0u8
        && call.selector[3] == 0u8 {
        proof {
            assert(call.selector@ =~= widthraw_selector());
        }
        match ledger.widthraw(call.token, call.amount, call.agent) {
            Ok(()) => Ok(()),
            Err(crate::escrow::EscrowError::UnknownToken) => Err(RemoteFault::UnknownToken),
            Err(crate::escrow::EscrowError::InsufficientAllowance) => Err(
                RemoteFault::InsufficientAllowance,
            ),
        }
    } else {
        proof {
            assert(call.selector@ != deposit_selector() && call.selector@ != widthraw_selector());
        }
        Err(RemoteFault::UnknownEntryPoint)
    }
}

impl BridgeTransferContract {
    /// The whole outbound protocol run against a ledger held in this
    /// process, standing in for the remote contract: validate the
    /// recipient, resolve the routing tag, invoke the callee's entry
    /// point, and emit the event only if that call succeeded.
    ///
    /// The contract carries the bridge's atomic-abort guarantee: on any
    /// failure the ledger — events included — is exactly its pre-call
    /// state, and no `BridgeOut` event exists.
    pub fn bridge_out_local(
        &self,
        token_address: Token,
        agent: Agent,
        amount: u128,
        action: Action,
        recipient: Agent,
        recipient_is_contract: bool,
        ledger: &mut Escrow,
    ) -> (r: Result<BridgeOut, BridgeError>)
        requires
            old(ledger).wf(),
        ensures
            final(ledger).wf(),
            r is Err ==> final(ledger)@ == old(ledger)@,
            !recipient_is_contract ==> r == Err::<BridgeOut, BridgeError>(BridgeError::InvalidRecipient),
            recipient_is_contract ==> {
                let m = old(ledger)@;
                let succeeds = m.allowances.contains_key(token_address) && match action {
                    Action::Deposit => m.allowances[token_address] + amount <= u128::MAX,
                    Action::Widthdaw => amount <= m.allowances[token_address],
                };
                if succeeds {
                    r == Ok::<BridgeOut, BridgeError>((BridgeOut {
                        token_address,
                        recipient,
                        agent,
                        amount,
                    })) && final(ledger)@ == (match action {
                        Action::Deposit => deposit_model(m, token_address, amount, agent),
                        Action::Widthdaw => widthraw_model(m, token_address, amount, agent),
                    })
                } else {
                    r == Err::<BridgeOut, BridgeError>(BridgeError::RemoteCallFailure)
                }
            },
    {
        let call = match self.bridge_out(token_address, agent, amount, action, recipient,
            recipient_is_contract) {
            Ok(call) => call,
            Err(e) => {
                return Err(e);
            }
        };
        proof {
            crate::dispatch::lemma_selectors_distinct();
        }
        let fired = apply_remote_call(ledger, &call);
        self.bridge_out_complete(&call, fired.is_ok())
    }
}

} // verus!
