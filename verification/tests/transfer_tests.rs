use bridge_escrow::bridge::BridgeError;
use bridge_escrow::ids::Agent;
use bridge_escrow::transfer::{
    build_notice_call, notice_fired, BridgeIn, BridgeOut, BridgeTransferContract, NoticeCall,
};

fn gateway() -> BridgeTransferContract {
    BridgeTransferContract::new(Agent { id: 9 })
}

#[test]
fn transfer_bridge_in_names_self_as_target() {
    let gw = gateway();
    let event = gw.bridge_in(Agent { id: 5 }, String::from("chainX"), String::from("cherries"));
    assert_eq!(
        event,
        BridgeIn {
            from_contract: Agent { id: 5 },
            to_contract: Agent { id: 9 },
            transferable: String::from("cherries"),
            from_chain: String::from("chainX"),
        }
    );
}

#[test]
fn notice_call_carries_inbound_selector() {
    let c = build_notice_call(
        Agent { id: 5 },
        Agent { id: 6 },
        String::from("chainY"),
        String::from("cherries"),
    );
    assert_eq!(
        c,
        NoticeCall {
            callee: Agent { id: 6 },
            selector: [0x44, 0xff, 0x23, 0x12],
            from_contract: Agent { id: 5 },
            target_chain: String::from("chainY"),
            transferable: String::from("cherries"),
        }
    );
}

#[test]
fn transfer_bridge_out_rejects_plain_account() {
    let gw = gateway();
    let r = gw.bridge_out(
        Agent { id: 5 },
        Agent { id: 6 },
        String::from("chainY"),
        String::from("cherries"),
        false,
    );
    assert_eq!(r, Err(BridgeError::InvalidRecipient));
}

#[test]
fn transfer_bridge_out_builds_notice() {
    let gw = gateway();
    let c = gw
        .bridge_out(
            Agent { id: 5 },
            Agent { id: 6 },
            String::from("chainY"),
            String::from("cherries"),
            true,
        )
        .unwrap();
    assert_eq!(c.callee, Agent { id: 6 });
    assert_eq!(c.from_contract, Agent { id: 5 });
    assert_eq!(c.selector, [0x44, 0xff, 0x23, 0x12]);
}

#[test]
fn transfer_bridge_out_from_self_uses_own_identity() {
    let gw = gateway();
    let c = gw
        .bridge_out_from_self(
            Agent { id: 6 },
            String::from("chainY"),
            String::from("cherries"),
            true,
        )
        .unwrap();
    assert_eq!(c.from_contract, Agent { id: 9 });
    assert_eq!(c.callee, Agent { id: 6 });
}

#[test]
fn transfer_cherry_to_self_targets_own_identity() {
    let gw = gateway();
    let c = gw.bridge_out_cherry_to_self(
        Agent { id: 5 },
        String::from("chainY"),
        String::from("cherries"),
    );
    assert_eq!(c.callee, Agent { id: 9 });
    assert_eq!(c.from_contract, Agent { id: 5 });
}

#[test]
fn transfer_cherry_from_to_self_notifies_itself() {
    let gw = gateway();
    let c = gw.bridge_out_cherry_from_to_self(String::from("chainY"), String::from("cherries"));
    assert_eq!(c.callee, Agent { id: 9 });
    assert_eq!(c.from_contract, Agent { id: 9 });
}

#[test]
fn transfer_notice_fired_emits_only_on_success() {
    let c = build_notice_call(
        Agent { id: 5 },
        Agent { id: 6 },
        String::from("chainY"),
        String::from("cherries"),
    );
    let out = notice_fired(c, true).unwrap();
    assert_eq!(
        out,
        BridgeOut {
            from_contract: Agent { id: 5 },
            to_contract: Agent { id: 6 },
            transferable: String::from("cherries"),
            target_chain: String::from("chainY"),
        }
    );
    let c2 = build_notice_call(
        Agent { id: 5 },
        Agent { id: 6 },
        String::from("chainY"),
        String::from("cherries"),
    );
    assert_eq!(notice_fired(c2, false), Err(BridgeError::RemoteCallFailure));
}
