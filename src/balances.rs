use vstd::prelude::*;
use vstd::hash_map::StringHashMap;
use crate::support::{DispatchError, DispatchResult};
use crate::types::{AccountId, Balance};

verus! {

/// The balance of `who` in `m`: zero where `who` has none recorded.
pub open spec fn balance_in(m: Map<Seq<char>, Balance>, who: Seq<char>) -> Balance {
    if m.contains_key(who) {
        m[who]
    } else {
        0
    }
}

/// What `transfer` makes of the balances `m`, and what it returns.
/// Both checks are made on the old balances before anything is written; a
/// transfer to oneself that passes them leaves the balances as they were.
pub open spec fn transfer_outcome(
    m: Map<Seq<char>, Balance>,
    caller: Seq<char>,
    to: Seq<char>,
    amount: Balance,
) -> (Map<Seq<char>, Balance>, DispatchResult) {
    let from_balance = balance_in(m, caller);
    let to_balance = balance_in(m, to);
    if from_balance < amount {
        (m, Err(DispatchError::InsufficientFunds))
    } else if to_balance + amount > Balance::MAX {
        (m, Err(DispatchError::BalanceOverflow))
    } else if caller == to {
        (m, Ok(()))
    } else {
        (
            m.insert(caller, (from_balance - amount) as Balance).insert(
                to,
                (to_balance + amount) as Balance,
            ),
            Ok(()),
        )
    }
}

/// The calls that this pallet dispatches.
pub enum Call {
    Transfer { to: AccountId, amount: Balance },
}

/// What dispatching `call` from `caller` makes of the balances `m`.
pub open spec fn call_outcome(m: Map<Seq<char>, Balance>, caller: Seq<char>, call: Call) -> (
    Map<Seq<char>, Balance>,
    DispatchResult,
) {
    match call {
        Call::Transfer { to, amount } => transfer_outcome(m, caller, to@, amount),
    }
}

/// The balance of each account.
pub struct Pallet {
    balances: StringHashMap<Balance>,
}

impl View for Pallet {
    type V = Map<Seq<char>, Balance>;

    closed spec fn view(&self) -> Map<Seq<char>, Balance> {
        self.balances@
    }
}

impl Pallet {
    /// A pallet in which no account has a balance.
    pub fn new() -> (r: Self)
        ensures
            r@ == Map::<Seq<char>, Balance>::empty(),
    {
        Pallet { balances: StringHashMap::new() }
    }

    /// Sets the balance of `who` to `amount`, whatever it was.
    pub fn set_balance(&mut self, who: &AccountId, amount: Balance)
        ensures
            final(self)@ == old(self)@.insert(who@, amount),
    {
        self.balances.insert(who.clone(), amount);
    }

    /// The balance of `who`; zero where none was set.
    pub fn balance(&self, who: &AccountId) -> (r: Balance)
        ensures
            r == balance_in(self@, who@),
    {
        match self.balances.get(who.as_str()) {
            Some(b) => *b,
            None => 0,
        }
    }

    /// Moves `amount` from `caller` to `to`. Fails, and changes nothing, where
    /// the caller has less than `amount` or the receiver's balance would overflow.
    pub fn transfer(&mut self, caller: &AccountId, to: &AccountId, amount: Balance) -> (r:
        DispatchResult)
        ensures
            (final(self)@, r) == transfer_outcome(old(self)@, caller@, to@, amount),
    {
        let caller_balance = self.balance(caller);
        let to_balance = self.balance(to);

        let new_caller_balance = match caller_balance.checked_sub(amount) {
            Some(b) => b,
            None => {
                return Err(DispatchError::InsufficientFunds);
            },
        };
        let new_to_balance = match to_balance.checked_add(amount) {
            Some(b) => b,
            None => {
                return Err(DispatchError::BalanceOverflow);
            },
        };
        if *caller == *to {
            return Ok(());
        }

        self.set_balance(caller, new_caller_balance);
        self.set_balance(to, new_to_balance);
        Ok(())
    }

    /// Carries out `call` on behalf of `caller`.
    pub fn dispatch(&mut self, caller: AccountId, call: Call) -> (r: DispatchResult)
        ensures
            (final(self)@, r) == call_outcome(old(self)@, caller@, call),
    {
        match call {
            Call::Transfer { to, amount } => self.transfer(&caller, &to, amount),
        }
    }
}

/// A transfer that succeeds keeps the sum of the two balances and leaves every
/// other account alone, so the total supply is kept; between two distinct
/// accounts it takes exactly `amount` from the sender.
pub proof fn lemma_transfer_conserves(
    m: Map<Seq<char>, Balance>,
    caller: Seq<char>,
    to: Seq<char>,
    amount: Balance,
)
    requires
        transfer_outcome(m, caller, to, amount).1 is Ok,
    ensures
        ({
            let after = transfer_outcome(m, caller, to, amount).0;
            &&& balance_in(after, caller) + balance_in(after, to) == balance_in(m, caller)
                + balance_in(m, to)
            &&& caller != to ==> balance_in(after, caller) == balance_in(m, caller) - amount
            &&& forall|other: Seq<char>|
                other != caller && other != to ==> #[trigger] balance_in(after, other)
                    == balance_in(m, other)
        }),
{
}

/// A transfer to oneself changes no balance, whether it succeeds or fails.
pub proof fn lemma_transfer_to_self_changes_nothing(
    m: Map<Seq<char>, Balance>,
    who: Seq<char>,
    amount: Balance,
)
    ensures
        transfer_outcome(m, who, who, amount).0 == m,
{
}

/// A transfer that fails leaves every balance as it was.
pub proof fn lemma_failed_transfer_changes_nothing(
    m: Map<Seq<char>, Balance>,
    caller: Seq<char>,
    to: Seq<char>,
    amount: Balance,
)
    requires
        transfer_outcome(m, caller, to, amount).1 is Err,
    ensures
        transfer_outcome(m, caller, to, amount).0 == m,
{
}

/// Sending one unit more than the sender holds fails for lack of funds.
pub proof fn lemma_transfer_above_balance_fails(
    m: Map<Seq<char>, Balance>,
    caller: Seq<char>,
    to: Seq<char>,
)
    requires
        balance_in(m, caller) < Balance::MAX,
    ensures
        transfer_outcome(m, caller, to, (balance_in(m, caller) + 1) as Balance) == (
            m,
            Err::<(), DispatchError>(DispatchError::InsufficientFunds),
        ),
{
}

/// Sending the whole balance to another account succeeds, where the receiver
/// can hold the sum, and leaves the sender with nothing.
pub proof fn lemma_transfer_whole_balance(m: Map<Seq<char>, Balance>, caller: Seq<char>, to: Seq<char>)
    requires
        caller != to,
        balance_in(m, to) + balance_in(m, caller) <= Balance::MAX,
    ensures
        transfer_outcome(m, caller, to, balance_in(m, caller)).1 is Ok,
        balance_in(transfer_outcome(m, caller, to, balance_in(m, caller)).0, caller) == 0,
{
}

} // verus!
