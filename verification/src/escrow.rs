//! The escrow ledger: allowance accounting and its append-only event log.
//!
//! One allowance entry is created per ledger at construction and mutated
//! only by `deposit` and `widthraw`.  Deposit and withdrawal records are
//! keyed by agent and token and overwritten on every operation with the
//! *resulting global allowance* — not the agent's own contribution.  That
//! conflation of "my deposit" with "the pool's current size" is a deliberate
//! part of the ledger's observable behaviour and is kept exactly.

use vstd::prelude::*;

use crate::ids::{Agent, Token};
use crate::table::{assoc_map, keys_unique, lemma_assoc_absent, lemma_assoc_at, lemma_assoc_empty,
    lemma_assoc_push, lemma_assoc_update};

verus! {

/// Event: an allowance entry was seeded at ledger construction.
#[derive(Clone, Copy, PartialEq, Eq, Structural, Debug)]
pub struct Initiated {
    pub initial_token: Token,
    pub initial_value: u128,
}

/// Event: `agent` deposited `deposited_amount` of `deposited_token`.
#[derive(Clone, Copy, PartialEq, Eq, Structural, Debug)]
pub struct Deposited {
    pub deposited_token: Token,
    pub deposited_amount: u128,
    pub agent: Agent,
}

/// Event: `agent` withdrew `withdrawn_amount` of `withdrawn_token`.
#[derive(Clone, Copy, PartialEq, Eq, Structural, Debug)]
pub struct Widthdrew {
    pub withdrawn_token: Token,
    pub withdrawn_amount: u128,
    pub agent: Agent,
}

/// One record of the ledger's append-only event log.
#[derive(Clone, Copy, PartialEq, Eq, Structural, Debug)]
pub enum EscrowEvent {
    Initiated(Initiated),
    Deposited(Deposited),
    Widthdrew(Widthdrew),
}

/// Why an escrow operation refused to act.
#[derive(Clone, Copy, PartialEq, Eq, Structural, Debug)]
pub enum EscrowError {
    /// The token's allowance entry was never initialized.  The host treats
    /// this as fatal: the whole invocation unwinds with no partial effects.
    UnknownToken,
    /// A withdrawal asked for more than the current allowance.  Recoverable;
    /// the ledger is left untouched.
    InsufficientAllowance,
}

/// The mathematical state of an escrow ledger.
#[verifier::ext_equal]
pub struct EscrowModel {
    /// Per token, the outstanding balance available to move.
    pub allowances: Map<Token, u128>,
    /// Per (agent, token), the allowance value that resulted from that
    /// agent's latest deposit.
    pub deposits: Map<(Agent, Token), u128>,
    /// Per (agent, token), the allowance value that resulted from that
    /// agent's latest withdrawal.
    pub widthraws: Map<(Agent, Token), u128>,
    /// Every event the ledger has emitted, oldest first.
    pub events: Seq<EscrowEvent>,
}

/// The state a successful deposit leaves behind: the token's allowance grown
/// by `amount`, the depositor's record overwritten with that new allowance,
/// and a `Deposited` event appended.
pub open spec fn deposit_model(m: EscrowModel, token: Token, amount: u128, depositor: Agent) -> EscrowModel {
    let new_allowance = (m.allowances[token] + amount) as u128;
    EscrowModel {
        allowances: m.allowances.insert(token, new_allowance),
        deposits: m.deposits.insert((depositor, token), new_allowance),
        widthraws: m.widthraws,
        events: m.events.push(EscrowEvent::Deposited(Deposited {
            deposited_token: token,
            deposited_amount: amount,
            agent: depositor,
        })),
    }
}

/// The state a successful withdrawal leaves behind: the token's allowance
/// shrunk by `amount`, the withdrawer's record overwritten with that new
/// allowance, and a `Widthdrew` event appended.
pub open spec fn widthraw_model(m: EscrowModel, token: Token, amount: u128, widthdrawer: Agent) -> EscrowModel {
    let new_allowance = (m.allowances[token] - amount) as u128;
    EscrowModel {
        allowances: m.allowances.insert(token, new_allowance),
        deposits: m.deposits,
        widthraws: m.widthraws.insert((widthdrawer, token), new_allowance),
        events: m.events.push(EscrowEvent::Widthdrew(Widthdrew {
            withdrawn_token: token,
            withdrawn_amount: amount,
            agent: widthdrawer,
        })),
    }
}

/// The escrow ledger.  Each table is an association vector with pairwise
/// distinct keys; the view reads them as maps.
pub struct Escrow {
    allowances: Vec<(Token, u128)>,
    deposits: Vec<((Agent, Token), u128)>,
    widthraws: Vec<((Agent, Token), u128)>,
    events: Vec<EscrowEvent>,
}

impl View for Escrow {
    type V = EscrowModel;

    closed spec fn view(&self) -> EscrowModel {
        EscrowModel {
            allowances: assoc_map(self.allowances@),
            deposits: assoc_map(self.deposits@),
            widthraws: assoc_map(self.widthraws@),
            events: self.events@,
        }
    }
}

/// Finds the index holding `token`, or reports that no index does.
fn find_token(entries: &Vec<(Token, u128)>, token: Token) -> (r: Option<usize>)
    ensures
        match r {
            Some(i) => i < entries@.len() && entries@[i as int].0 == token,
            None => forall|i: int| 0 <= i < entries@.len() ==> entries@[i].0 != token,
        },
{
    let mut i: usize = 0;
    while i < entries.len()
        invariant
            i <= entries@.len(),
            forall|j: int| 0 <= j < i ==> entries@[j].0 != token,
        decreases entries@.len() - i,
    {
        if entries[i].0 == token {
            return Some(i);
        }
        i = i + 1;
    }
    None
}

/// Finds the index holding the (agent, token) pair, or reports that no
/// index does.
fn find_record(entries: &Vec<((Agent, Token), u128)>, agent: Agent, token: Token) -> (r: Option<usize>)
    ensures
        match r {
            Some(i) => i < entries@.len() && entries@[i as int].0 == (agent, token),
            None => forall|i: int| 0 <= i < entries@.len() ==> entries@[i].0 != (agent, token),
        },
{
    let mut i: usize = 0;
    while i < entries.len()
        invariant
            i <= entries@.len(),
            forall|j: int| 0 <= j < i ==> entries@[j].0 != (agent, token),
        decreases entries@.len() - i,
    {
        if entries[i].0.0 == agent && entries[i].0.1 == token {
            return Some(i);
        }
        i = i + 1;
    }
    None
}

/// Overwrites the record under (agent, token), or appends it if absent.
fn put_record(entries: &mut Vec<((Agent, Token), u128)>, agent: Agent, token: Token, value: u128)
    requires
        keys_unique(old(entries)@),
    ensures
        keys_unique(final(entries)@),
        assoc_map(final(entries)@) == assoc_map(old(entries)@).insert((agent, token), value),
{
    match find_record(entries, agent, token) {
        Some(i) => {
            proof {
                lemma_assoc_update(entries@, i as int, value);
            }
            entries[i] = ((agent, token), value);
        }
        None => {
            proof {
                lemma_assoc_push(entries@, (agent, token), value);
            }
            entries.push(((agent, token), value));
        }
    }
}

impl Escrow {
    /// True when every table's keys are pairwise distinct, so that each
    /// table determines the map its view reads it as.
    pub closed spec fn wf(&self) -> bool {
        keys_unique(self.allowances@)
            && keys_unique(self.deposits@)
            && keys_unique(self.widthraws@)
    }

    /// Creates the ledger and seeds the one allowance entry it starts with.
    /// This is the only place an allowance entry is ever created: no later
    /// operation re-seeds or overwrites a token's entry from outside, so an
    /// already-initialized token can never be silently re-initialized.
    pub fn new(initial_token: Token, initial_value: u128) -> (r: Escrow)
        ensures
            r.wf(),
            r@.allowances == Map::<Token, u128>::empty().insert(initial_token, initial_value),
            r@.deposits == Map::<(Agent, Token), u128>::empty(),
            r@.widthraws == Map::<(Agent, Token), u128>::empty(),
            r@.events == seq![EscrowEvent::Initiated(Initiated { initial_token, initial_value })],
    {
        let mut allowances: Vec<(Token, u128)> = Vec::new();
        allowances.push((initial_token, initial_value));
        let mut events: Vec<EscrowEvent> = Vec::new();
        events.push(EscrowEvent::Initiated(Initiated { initial_token, initial_value }));
        let r = Escrow { allowances, deposits: Vec::new(), widthraws: Vec::new(), events };
        proof {
            lemma_assoc_empty::<Token, u128>();
            lemma_assoc_empty::<(Agent, Token), u128>();
            lemma_assoc_push(Seq::<(Token, u128)>::empty(), initial_token, initial_value);
            assert(r.events@ =~= seq![EscrowEvent::Initiated(Initiated { initial_token, initial_value })]);
        }
        r
    }

    /// Pure lookup of a token's current allowance; `None` means the token
    /// was never initialized.  Takes the ledger immutably: no call count
    /// can change any state.
    pub fn get_allowance(&self, token: Token) -> (r: Option<u128>)
        requires
            self.wf(),
        ensures
            r == if self@.allowances.contains_key(token) {
                Some(self@.allowances[token])
            } else {
                None::<u128>
            },
    {
        match find_token(&self.allowances, token) {
            Some(i) => {
                proof {
                    lemma_assoc_at(self.allowances@, i as int);
                }
                Some(self.allowances[i].1)
            }
            None => {
                proof {
                    lemma_assoc_absent(self.allowances@, token);
                }
                None
            }
        }
    }

    /// Pure lookup of the allowance value recorded at `depositor`'s latest
    /// deposit of `token`; `None` means that agent never deposited it.
    pub fn get_deposit(&self, token: Token, depositor: Agent) -> (r: Option<u128>)
        requires
            self.wf(),
        ensures
            r == if self@.deposits.contains_key((depositor, token)) {
                Some(self@.deposits[(depositor, token)])
            } else {
                None::<u128>
            },
    {
        match find_record(&self.deposits, depositor, token) {
            Some(i) => {
                proof {
                    lemma_assoc_at(self.deposits@, i as int);
                }
                Some(self.deposits[i].1)
            }
            None => {
                proof {
                    lemma_assoc_absent(self.deposits@, (depositor, token));
                }
                None
            }
        }
    }

    /// Pure lookup of the allowance value recorded at `widthdrawer`'s latest
    /// withdrawal of `token`; `None` means that agent never withdrew it.
    pub fn get_widthraw(&self, token: Token, widthdrawer: Agent) -> (r: Option<u128>)
        requires
            self.wf(),
        ensures
            r == if self@.widthraws.contains_key((widthdrawer, token)) {
                Some(self@.widthraws[(widthdrawer, token)])
            } else {
                None::<u128>
            },
    {
        match find_record(&self.widthraws, widthdrawer, token) {
            Some(i) => {
                proof {
                    lemma_assoc_at(self.widthraws@, i as int);
                }
                Some(self.widthraws[i].1)
            }
            None => {
                proof {
                    lemma_assoc_absent(self.widthraws@, (widthdrawer, token));
                }
                None
            }
        }
    }

    /// Grows `token`'s allowance by `amount` and records the new allowance —
    /// not the increment — under the depositor.  Fails with `UnknownToken`,
    /// leaving the ledger untouched, exactly when the token was never
    /// initialized.  The caller keeps the sum inside the balance type; the
    /// host aborts the invocation on the overflowing inputs instead.
    pub fn deposit(&mut self, token: Token, amount: u128, depositor: Agent) -> (r: Result<(), EscrowError>)
        requires
            old(self).wf(),
            old(self)@.allowances.contains_key(token)
                ==> old(self)@.allowances[token] + amount <= u128::MAX,
        ensures
            final(self).wf(),
            r is Ok <==> old(self)@.allowances.contains_key(token),
            r is Err ==> r == Err::<(), EscrowError>(EscrowError::UnknownToken)
                && final(self)@ == old(self)@,
            r is Ok ==> final(self)@ == deposit_model(old(self)@, token, amount, depositor),
    {
        let i = match find_token(&self.allowances, token) {
            Some(i) => i,
            None => {
                proof {
                    lemma_assoc_absent(self.allowances@, token);
                }
                return Err(EscrowError::UnknownToken);
            }
        };
        proof {
            lemma_assoc_at(self.allowances@, i as int);
        }
        let allowance = self.allowances[i].1;
        let deposited_amount = allowance + amount;
        proof {
            lemma_assoc_update(self.allowances@, i as int, deposited_amount);
        }
        self.allowances[i] = (token, deposited_amount);
        put_record(&mut self.deposits, depositor, token, deposited_amount);
        self.events.push(EscrowEvent::Deposited(Deposited {
            deposited_token: token,
            deposited_amount: amount,
            agent: depositor,
        }));
        assert(self@ =~= deposit_model(old(self)@, token, amount, depositor));
        Ok(())
    }

    /// Shrinks `token`'s allowance by `amount` and records the new allowance
    /// — not the decrement — under the withdrawer.  Fails with
    /// `UnknownToken` when the token was never initialized and with
    /// `InsufficientAllowance` when `amount` exceeds the allowance; either
    /// failure leaves the ledger untouched.
    pub fn widthraw(&mut self, token: Token, amount: u128, widthdrawer: Agent) -> (r: Result<(), EscrowError>)
        requires
            old(self).wf(),
        ensures
            final(self).wf(),
            r is Ok <==> old(self)@.allowances.contains_key(token)
                && amount <= old(self)@.allowances[token],
            !old(self)@.allowances.contains_key(token)
                ==> r == Err::<(), EscrowError>(EscrowError::UnknownToken),
            old(self)@.allowances.contains_key(token) && amount > old(self)@.allowances[token]
                ==> r == Err::<(), EscrowError>(EscrowError::InsufficientAllowance),
            r is Err ==> final(self)@ == old(self)@,
            r is Ok ==> final(self)@ == widthraw_model(old(self)@, token, amount, widthdrawer),
    {
        let i = match find_token(&self.allowances, token) {
            Some(i) => i,
            None => {
                proof {
                    lemma_assoc_absent(self.allowances@, token);
                }
                return Err(EscrowError::UnknownToken);
            }
        };
        proof {
            lemma_assoc_at(self.allowances@, i as int);
        }
        let allowance = self.allowances[i].1;
        if allowance < amount {
            return Err(EscrowError::InsufficientAllowance);
        }
        let amount_after = allowance - amount;
        proof {
            lemma_assoc_update(self.allowances@, i as int, amount_after);
        }
        self.allowances[i] = (token, amount_after);
        put_record(&mut self.widthraws, widthdrawer, token, amount_after);
        self.events.push(EscrowEvent::Widthdrew(Widthdrew {
            withdrawn_token: token,
            withdrawn_amount: amount,
            agent: widthdrawer,
        }));
        assert(self@ =~= widthraw_model(old(self)@, token, amount, widthdrawer));
        Ok(())
    }

    /// The ledger's event log, oldest first.  Events are outputs only: the
    /// ledger never reads them back, and no operation removes or reorders
    /// them.
    pub fn events(&self) -> (r: &Vec<EscrowEvent>)
        ensures
            r@ == self@.events,
    {
        &self.events
    }
}

/// Law: an allowance can never be negative.  Balances are unsigned, and the
/// withdrawal guard refuses any amount above the current allowance, so no
/// sequence of operations can drive an entry below zero.
pub proof fn lemma_allowance_nonnegative(e: &Escrow, token: Token)
    ensures
        e@.allowances.contains_key(token) ==> e@.allowances[token] >= 0,
{
}

} // verus!
