use bridge_escrow::bridge::{
    apply_remote_call, BridgeError, BridgeIn, BridgeOut, BridgeTransferContract, RemoteCall,
    RemoteFault,
};
use bridge_escrow::dispatch::{selector_of, Action};
use bridge_escrow::escrow::Escrow;
use bridge_escrow::ids::{Agent, Token};

fn token_a() -> Token {
    Token { id: 7 }
}

fn gateway() -> BridgeTransferContract {
    BridgeTransferContract::new(Agent { id: 9 })
}

#[test]
fn selector_table_is_fixed() {
    assert_eq!(selector_of(Action::Deposit), [240, 0, 0, 0]);
    assert_eq!(selector_of(Action::Widthdaw), [250, 0, 0, 0]);
}

#[test]
fn bridge_in_names_self_as_recipient() {
    let gw = gateway();
    let ledger = Escrow::new(token_a(), 100);
    let event = gw.bridge_in(token_a(), String::from("chainX"), 10);
    assert_eq!(
        event,
        BridgeIn {
            token_address: token_a(),
            recipient: Agent { id: 9 },
            from_chain: String::from("chainX"),
            amount: 10,
        }
    );
    // A bridge-in is a pure notification: no ledger was touched.
    assert_eq!(ledger.get_allowance(token_a()), Some(100));
    assert_eq!(ledger.events().len(), 1);
}

#[test]
fn bridge_out_rejects_plain_account() {
    let gw = gateway();
    let agent = Agent { id: 1 };
    let non_contract = Agent { id: 3 };
    let r = gw.bridge_out(token_a(), agent, 10, Action::Deposit, non_contract, false);
    assert_eq!(r, Err(BridgeError::InvalidRecipient));
}

#[test]
fn bridge_out_builds_the_remote_call() {
    let gw = gateway();
    let agent = Agent { id: 1 };
    let recipient = Agent { id: 4 };
    let call = gw
        .bridge_out(token_a(), agent, 10, Action::Widthdaw, recipient, true)
        .unwrap();
    assert_eq!(
        call,
        RemoteCall {
            callee: recipient,
            selector: [250, 0, 0, 0],
            token: token_a(),
            amount: 10,
            agent,
        }
    );
}

#[test]
fn bridge_out_complete_emits_only_on_success() {
    let gw = gateway();
    let call = RemoteCall {
        callee: Agent { id: 4 },
        selector: [240, 0, 0, 0],
        token: token_a(),
        amount: 10,
        agent: Agent { id: 1 },
    };
    assert_eq!(
        gw.bridge_out_complete(&call, true),
        Ok(BridgeOut {
            token_address: token_a(),
            recipient: Agent { id: 4 },
            agent: Agent { id: 1 },
            amount: 10,
        })
    );
    assert_eq!(gw.bridge_out_complete(&call, false), Err(BridgeError::RemoteCallFailure));
}

#[test]
fn remote_call_routes_deposit() {
    let mut ledger = Escrow::new(token_a(), 100);
    let call = RemoteCall {
        callee: Agent { id: 4 },
        selector: [240, 0, 0, 0],
        token: token_a(),
        amount: 50,
        agent: Agent { id: 1 },
    };
    assert_eq!(apply_remote_call(&mut ledger, &call), Ok(()));
    assert_eq!(ledger.get_allowance(token_a()), Some(150));
    assert_eq!(ledger.get_deposit(token_a(), Agent { id: 1 }), Some(150));
}

#[test]
fn remote_call_routes_widthraw() {
    let mut ledger = Escrow::new(token_a(), 100);
    let call = RemoteCall {
        callee: Agent { id: 4 },
        selector: [250, 0, 0, 0],
        token: token_a(),
        amount: 30,
        agent: Agent { id: 1 },
    };
    assert_eq!(apply_remote_call(&mut ledger, &call), Ok(()));
    assert_eq!(ledger.get_allowance(token_a()), Some(70));
    assert_eq!(ledger.get_widthraw(token_a(), Agent { id: 1 }), Some(70));
}

#[test]
fn remote_call_unknown_entry_point() {
    let mut ledger = Escrow::new(token_a(), 100);
    let call = RemoteCall {
        callee: Agent { id: 4 },
        selector: [1, 2, 3, 4],
        token: token_a(),
        amount: 10,
        agent: Agent { id: 1 },
    };
    assert_eq!(apply_remote_call(&mut ledger, &call), Err(RemoteFault::UnknownEntryPoint));
    assert_eq!(ledger.get_allowance(token_a()), Some(100));
    assert_eq!(ledger.events().len(), 1);
}

#[test]
fn remote_call_unknown_token() {
    let mut ledger = Escrow::new(token_a(), 100);
    let call = RemoteCall {
        callee: Agent { id: 4 },
        selector: [240, 0, 0, 0],
        token: Token { id: 8 },
        amount: 10,
        agent: Agent { id: 1 },
    };
    assert_eq!(apply_remote_call(&mut ledger, &call), Err(RemoteFault::UnknownToken));
    assert_eq!(ledger.events().len(), 1);
}

#[test]
fn remote_call_insufficient_allowance() {
    let mut ledger = Escrow::new(token_a(), 100);
    let call = RemoteCall {
        callee: Agent { id: 4 },
        selector: [250, 0, 0, 0],
        token: token_a(),
        amount: 101,
        agent: Agent { id: 1 },
    };
    assert_eq!(apply_remote_call(&mut ledger, &call), Err(RemoteFault::InsufficientAllowance));
    assert_eq!(ledger.get_allowance(token_a()), Some(100));
}

#[test]
fn remote_call_overflowing_deposit() {
    let mut ledger = Escrow::new(token_a(), u128::MAX - 5);
    let call = RemoteCall {
        callee: Agent { id: 4 },
        selector: [240, 0, 0, 0],
        token: token_a(),
        amount: 6,
        agent: Agent { id: 1 },
    };
    assert_eq!(apply_remote_call(&mut ledger, &call), Err(RemoteFault::AllowanceOverflow));
    assert_eq!(ledger.get_allowance(token_a()), Some(u128::MAX - 5));
    let almost = RemoteCall { amount: 5, ..call };
    assert_eq!(apply_remote_call(&mut ledger, &almost), Ok(()));
    assert_eq!(ledger.get_allowance(token_a()), Some(u128::MAX));
}

#[test]
fn bridge_out_local_deposits_and_emits() {
    let gw = gateway();
    let agent = Agent { id: 1 };
    let recipient = Agent { id: 4 };
    let mut ledger = Escrow::new(token_a(), 100);
    let r = gw.bridge_out_local(token_a(), agent, 10, Action::Deposit, recipient, true, &mut ledger);
    assert_eq!(
        r,
        Ok(BridgeOut { token_address: token_a(), recipient, agent, amount: 10 })
    );
    assert_eq!(ledger.get_allowance(token_a()), Some(110));
    assert_eq!(ledger.events().len(), 2);
}

#[test]
fn failing_bridge_out_changes_nothing() {
    let gw = gateway();
    let agent = Agent { id: 1 };
    let recipient = Agent { id: 4 };
    let mut ledger = Escrow::new(token_a(), 100);
    let before_events = ledger.events().len();

    // The remote withdrawal fails: the allowance table and the event log
    // are exactly their pre-call state, and no bridge-out event exists.
    let r = gw.bridge_out_local(token_a(), agent, 200, Action::Widthdaw, recipient, true, &mut ledger);
    assert_eq!(r, Err(BridgeError::RemoteCallFailure));
    assert_eq!(ledger.get_allowance(token_a()), Some(100));
    assert_eq!(ledger.events().len(), before_events);
}

#[test]
fn bridge_out_local_rejects_plain_account() {
    let gw = gateway();
    let agent = Agent { id: 1 };
    let non_contract = Agent { id: 3 };
    let mut ledger = Escrow::new(token_a(), 100);
    let r = gw.bridge_out_local(token_a(), agent, 10, Action::Deposit, non_contract, false, &mut ledger);
    assert_eq!(r, Err(BridgeError::InvalidRecipient));
    assert_eq!(ledger.get_allowance(token_a()), Some(100));
    assert_eq!(ledger.events().len(), 1);
}
