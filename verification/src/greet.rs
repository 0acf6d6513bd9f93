//! The greeted account's lifecycle and the create-if-absent decision.
use vstd::prelude::*;

verus! {

/// The lifecycle of a greeted account on chain: it starts absent, is
/// created once with a zero counter, and every greeting increments the
/// counter. The account never leaves the created state.
#[derive(Debug, Clone, Copy, PartialEq, Eq, Structural)]
pub enum GreetedState {
    Absent,
    Created { counter: u32 },
}

/// The two pieces of chain work a greet request can issue, in order.
#[derive(Debug, Clone, Copy, PartialEq, Eq, Structural)]
pub enum ChainAction {
    CreateGreetedAccount,
    InvokeGreeting,
}

/// State after the creation transaction: an absent account is created with
/// a zero counter; an existing account is left as it is.
pub open spec fn spec_after_creation(s: GreetedState) -> GreetedState {
    match s {
        GreetedState::Absent => GreetedState::Created { counter: 0 },
        GreetedState::Created { counter } => GreetedState::Created { counter },
    }
}

pub fn after_creation(s: GreetedState) -> (r: GreetedState)
    ensures
        r == spec_after_creation(s),
{
    match s {
        GreetedState::Absent => GreetedState::Created { counter: 0 },
        GreetedState::Created { counter } => GreetedState::Created { counter },
    }
}

/// State after one executed greeting invocation on a created account: the
/// counter goes up by one.
pub open spec fn spec_after_greeting(s: GreetedState) -> GreetedState
    recommends
        s is Created,
{
    match s {
        GreetedState::Absent => GreetedState::Absent,
        GreetedState::Created { counter } => GreetedState::Created {
            counter: (counter + 1) as u32,
        },
    }
}

pub fn after_greeting(s: GreetedState) -> (r: GreetedState)
    requires
        s is Created,
        s matches GreetedState::Created { counter } ==> counter < u32::MAX,
    ensures
        r == spec_after_greeting(s),
{
    match s {
        GreetedState::Absent => GreetedState::Absent,
        GreetedState::Created { counter } => GreetedState::Created { counter: counter + 1 },
    }
}

/// The ordered chain work for one greet request, given whether the derived
/// account already exists among the program's accounts.
pub open spec fn spec_greet_actions(present: bool) -> Seq<ChainAction> {
    if present {
        seq![ChainAction::InvokeGreeting]
    } else {
        seq![ChainAction::CreateGreetedAccount, ChainAction::InvokeGreeting]
    }
}

pub fn greet_actions(present: bool) -> (r: Vec<ChainAction>)
    ensures
        r@ == spec_greet_actions(present),
{
    let mut v: Vec<ChainAction> = Vec::new();
    if !present {
        v.push(ChainAction::CreateGreetedAccount);
    }
    v.push(ChainAction::InvokeGreeting);
    proof {
        assert(v@ =~= spec_greet_actions(present));
    }
    v
}

/// Law: when the derived account is absent, a creation step is issued and
/// strictly precedes the greeting invocation; when it is already present,
/// no creation step is issued at all.
pub proof fn lemma_create_if_absent(present: bool)
    ensures
        !present ==> spec_greet_actions(present) == seq![
            ChainAction::CreateGreetedAccount,
            ChainAction::InvokeGreeting,
        ],
        present ==> spec_greet_actions(present) == seq![ChainAction::InvokeGreeting],
        present ==> !spec_greet_actions(present).contains(ChainAction::CreateGreetedAccount),
{
    if present {
        assert forall|i: int|
            0 <= i < spec_greet_actions(true).len() implies spec_greet_actions(true)[i]
            != ChainAction::CreateGreetedAccount by {
            assert(spec_greet_actions(true)[i] == ChainAction::InvokeGreeting);
        }
    }
}

/// Compare two byte vectors.
pub fn bytes_eq(a: &Vec<u8>, b: &Vec<u8>) -> (r: bool)
    ensures
        r <==> a@ == b@,
{
    if a.len() != b.len() {
        return false;
    }
    let mut i: usize = 0;
    while i < a.len()
        invariant
            a@.len() == b@.len(),
            i <= a@.len(),
            forall|k: int| 0 <= k < i ==> a@[k] == b@[k],
        decreases a@.len() - i,
    {
        if a[i] != b[i] {
            return false;
        }
        i += 1;
    }
    proof {
        assert(a@ =~= b@);
    }
    true
}

/// Whether the derived greeted address is missing from the program's known
/// accounts, so that a creation transaction must be issued first.
pub fn needs_creation(accounts: &Vec<Vec<u8>>, target: &Vec<u8>) -> (r: bool)
    ensures
        r <==> !(exists|i: int| 0 <= i < accounts@.len() && accounts@[i]@ == target@),
{
    let mut i: usize = 0;
    while i < accounts.len()
        invariant
            i <= accounts@.len(),
            forall|k: int| 0 <= k < i ==> accounts@[k]@ != target@,
        decreases accounts@.len() - i,
    {
        if bytes_eq(&accounts[i], target) {
            return false;
        }
        i += 1;
    }
    true
}

} // verus!
