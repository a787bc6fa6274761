//! The bridge gateway for named transferables: peer-to-peer notifications
//! between gateways.
//!
//! This gateway moves a transferable named by a string rather than a token
//! amount.  Its outbound side fires the peer gateway's inbound entry point
//! with the arguments in the fixed order (from-contract, target chain,
//! transferable); the inbound side only re-emits what it was told.  Several
//! outbound variants differ in which addresses default to this gateway's
//! own identity.

use vstd::prelude::*;

use crate::bridge::BridgeError;
use crate::ids::Agent;

verus! {

/// Event: `transferable`, originating on `from_chain`, moved from the
/// gateway at `from_contract` to the gateway at `to_contract`.
#[derive(PartialEq, Eq, Debug)]
pub struct BridgeIn {
    pub from_contract: Agent,
    pub to_contract: Agent,
    pub transferable: String,
    pub from_chain: String,
}

/// Event: `transferable` left `from_contract` for `to_contract` on
/// `target_chain`.  The fields mirror `BridgeIn` with the direction
/// reversed: the inbound notification's origin is the outbound event's
/// target.
#[derive(PartialEq, Eq, Debug)]
pub struct BridgeOut {
    pub from_contract: Agent,
    pub to_contract: Agent,
    pub transferable: String,
    pub target_chain: String,
}

/// One call at a peer gateway's inbound entry point: the callee, the fixed
/// routing tag of that entry point, and the arguments in their fixed order.
#[derive(PartialEq, Eq, Debug)]
pub struct NoticeCall {
    pub callee: Agent,
    pub selector: [u8; 4],
    pub from_contract: Agent,
    pub target_chain: String,
    pub transferable: String,
}

/// Routing tag of a peer gateway's inbound entry point.
pub open spec fn bridge_in_selector() -> Seq<u8> {
    seq![0x44u8, 0xffu8, 0x23u8, 0x12u8]
}

/// The peer-notification gateway.  It keeps no mutable state; its one
/// datum is the identity the host chain gave this contract instance.
pub struct BridgeTransferContract {
    /// This gateway's own address.
    pub account_id: Agent,
}

/// The shared build half of every outbound variant: the call that fires the
/// peer's inbound entry point, with the arguments in the fixed order
/// (from-contract, target chain, transferable).
pub fn build_notice_call(
    from_contract: Agent,
    to_contract: Agent,
    target_chain: String,
    transferable: String,
) -> (c: NoticeCall)
    ensures
        c.callee == to_contract,
        c.selector@ == bridge_in_selector(),
        c.from_contract == from_contract,
        c.target_chain == target_chain,
        c.transferable == transferable,
{
    let selector: [u8; 4] = [0x44u8, 0xffu8, 0x23u8, 0x12u8];
    proof {
        assert(selector@ =~= bridge_in_selector());
    }
    NoticeCall { callee: to_contract, selector, from_contract, target_chain, transferable }
}

/// The shared emit half: given the host's report on the fired call, either
/// the `BridgeOut` event or the abort.  A failed call aborts the whole
/// outbound operation — no event exists to emit.
pub fn notice_fired(call: NoticeCall, fired: bool) -> (r: Result<BridgeOut, BridgeError>)
    ensures
        r is Ok <==> fired,
        fired ==> r is Ok && r->Ok_0.from_contract == call.from_contract
            && r->Ok_0.to_contract == call.callee
            && r->Ok_0.transferable == call.transferable
            && r->Ok_0.target_chain == call.target_chain,
        !fired ==> r == Err::<BridgeOut, BridgeError>(BridgeError::RemoteCallFailure),
{
    if fired {
        Ok(BridgeOut {
            from_contract: call.from_contract,
            to_contract: call.callee,
            transferable: call.transferable,
            target_chain: call.target_chain,
        })
    } else {
        Err(BridgeError::RemoteCallFailure)
    }
}

impl BridgeTransferContract {
    /// A gateway under the identity the host assigned it.
    pub fn new(account_id: Agent) -> (r: Self)
        ensures
            r.account_id == account_id,
    {
        BridgeTransferContract { account_id }
    }

    /// Inbound notification: this gateway is the receiving contract, so the
    /// event names it as `to_contract`.  Never touches any state.
    pub fn bridge_in(&self, from_contract: Agent, from_chain: String, transferable: String) -> (e:
        BridgeIn)
        ensures
            e.from_contract == from_contract,
            e.to_contract == self.account_id,
            e.transferable == transferable,
            e.from_chain == from_chain,
    {
        let to_contract = self.account_id;
        BridgeIn { from_contract, to_contract, transferable, from_chain }
    }

    /// Outbound notification with an explicit origin: refuses a target that
    /// is not contract-capable before any call is built, and otherwise
    /// hands back the peer call to fire.  `to_is_contract` is the host's
    /// answer to whether `to_contract` is a contract.
    pub fn bridge_out(
        &self,
        from_contract: Agent,
        to_contract: Agent,
        target_chain: String,
        transferable: String,
        to_is_contract: bool,
    ) -> (r: Result<NoticeCall, BridgeError>)
        ensures
            r is Ok <==> to_is_contract,
            !to_is_contract ==> r == Err::<NoticeCall, BridgeError>(BridgeError::InvalidRecipient),
            r is Ok ==> r->Ok_0.callee == to_contract
                && r->Ok_0.selector@ == bridge_in_selector()
                && r->Ok_0.from_contract == from_contract
                && r->Ok_0.target_chain == target_chain
                && r->Ok_0.transferable == transferable,
    {
        if !to_is_contract {
            return Err(BridgeError::InvalidRecipient);
        }
        Ok(build_notice_call(from_contract, to_contract, target_chain, transferable))
    }

    /// As `bridge_out`, with this gateway's own address as the origin.
    pub fn bridge_out_from_self(
        &self,
        to_contract: Agent,
        target_chain: String,
        transferable: String,
        to_is_contract: bool,
    ) -> (r: Result<NoticeCall, BridgeError>)
        ensures
            r is Ok <==> to_is_contract,
            !to_is_contract ==> r == Err::<NoticeCall, BridgeError>(BridgeError::InvalidRecipient),
            r is Ok ==> r->Ok_0.callee == to_contract
                && r->Ok_0.selector@ == bridge_in_selector()
                && r->Ok_0.from_contract == self.account_id
                && r->Ok_0.target_chain == target_chain
                && r->Ok_0.transferable == transferable,
    {
        let from_contract = self.account_id;
        self.bridge_out(from_contract, to_contract, target_chain, transferable, to_is_contract)
    }

    /// Outbound notification with this gateway as its own target.  The
    /// callee is this very contract, which is contract-capable by
    /// construction, so no recipient check is needed and the call always
    /// comes back.
    pub fn bridge_out_cherry_to_self(
        &self,
        from_contract: Agent,
        target_chain: String,
        transferable: String,
    ) -> (c: NoticeCall)
        ensures
            c.callee == self.account_id,
            c.selector@ == bridge_in_selector(),
            c.from_contract == from_contract,
            c.target_chain == target_chain,
            c.transferable == transferable,
    {
        let to_contract = self.account_id;
        build_notice_call(from_contract, to_contract, target_chain, transferable)
    }

    /// As `bridge_out_cherry_to_self`, with this gateway as origin and
    /// target both: it notifies itself.
    pub fn bridge_out_cherry_from_to_self(&self, target_chain: String, transferable: String) -> (c:
        NoticeCall)
        ensures
            c.callee == self.account_id,
            c.selector@ == bridge_in_selector(),
            c.from_contract == self.account_id,
            c.target_chain == target_chain,
            c.transferable == transferable,
    {
        let to_contract = self.account_id;
        let from_contract = to_contract;
        build_notice_call(from_contract, to_contract, target_chain, transferable)
    }
}

} // verus!
