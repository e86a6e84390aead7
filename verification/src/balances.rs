use vstd::prelude::*;

use crate::storage::StorageMap;
use crate::support::{Dispatch, DispatchError, DispatchResult};
use crate::types::{AccountId, Balance};

verus! {

/// The Balances Module: it keeps track of how much balance each account has
/// and moves funds between accounts with overflow and underflow checks.
#[derive(Debug)]
pub struct Pallet {
    /// A storage mapping from accounts to their balances.
    balances: StorageMap<Balance>,
}

/// The balance an account holds in a balance map: its entry, or zero if
/// absent.
pub open spec fn balance_of(m: Map<Seq<char>, Balance>, who: Seq<char>) -> Balance {
    if m.contains_key(who) {
        m[who]
    } else {
        0
    }
}

/// What `transfer` does to a balance map: the new map and the result.
///
/// The debit is checked first, so a transfer from an account to itself is
/// credited on the already debited balance and can never overflow: it either
/// fails for insufficient funds or rewrites the sender's balance unchanged.
pub open spec fn spec_transfer(
    m: Map<Seq<char>, Balance>,
    caller: Seq<char>,
    to: Seq<char>,
    amount: Balance,
) -> (Map<Seq<char>, Balance>, DispatchResult) {
    let caller_balance = balance_of(m, caller);
    if amount > caller_balance {
        (m, Err(DispatchError::InsufficientFunds))
    } else {
        let new_caller_balance = (caller_balance - amount) as Balance;
        let to_balance = if to == caller {
            new_caller_balance
        } else {
            balance_of(m, to)
        };
        if to_balance + amount > Balance::MAX {
            (m, Err(DispatchError::Overflow))
        } else {
            (
                m.insert(caller, new_caller_balance).insert(to, (to_balance + amount) as Balance),
                Ok(()),
            )
        }
    }
}

/// An account that was never written to holds a balance of zero.
pub proof fn lemma_unset_balance_is_zero(m: Map<Seq<char>, Balance>, who: Seq<char>)
    requires
        !m.contains_key(who),
    ensures
        balance_of(m, who) == 0,
{
}

/// A transfer from an account to itself either fails for insufficient funds,
/// leaving the map untouched, or succeeds and leaves every balance as it was.
pub proof fn lemma_self_transfer(m: Map<Seq<char>, Balance>, who: Seq<char>, amount: Balance)
    ensures
        amount > balance_of(m, who) ==> spec_transfer(m, who, who, amount) == (
            m,
            Err::<(), DispatchError>(DispatchError::InsufficientFunds),
        ),
        amount <= balance_of(m, who) ==> spec_transfer(m, who, who, amount).1 == Ok::<
            (),
            DispatchError,
        >(()) && forall|a: Seq<char>|
            balance_of(#[trigger] spec_transfer(m, who, who, amount).0, a) == balance_of(m, a),
{
}

/// A transfer between two different accounts, covered by the sender's funds
/// and not overflowing the recipient, succeeds: the sender's balance falls by
/// the amount, the recipient's rises by it, their sum is conserved, and no
/// other account's balance changes.
pub proof fn lemma_transfer_success(
    m: Map<Seq<char>, Balance>,
    sender: Seq<char>,
    recipient: Seq<char>,
    amount: Balance,
)
    requires
        sender != recipient,
        amount <= balance_of(m, sender),
        balance_of(m, recipient) + amount <= Balance::MAX,
    ensures
        spec_transfer(m, sender, recipient, amount).1 == Ok::<(), DispatchError>(()),
        balance_of(spec_transfer(m, sender, recipient, amount).0, sender) == balance_of(m, sender)
            - amount,
        balance_of(spec_transfer(m, sender, recipient, amount).0, recipient) == balance_of(
            m,
            recipient,
        ) + amount,
        balance_of(spec_transfer(m, sender, recipient, amount).0, sender) + balance_of(
            spec_transfer(m, sender, recipient, amount).0,
            recipient,
        ) == balance_of(m, sender) + balance_of(m, recipient),
        forall|a: Seq<char>|
            a != sender && a != recipient ==> balance_of(
                #[trigger] spec_transfer(m, sender, recipient, amount).0,
                a,
            ) == balance_of(m, a),
{
}

/// A transfer of more than the sender holds fails with `InsufficientFunds`
/// and changes no balance at all.
pub proof fn lemma_transfer_insufficient(
    m: Map<Seq<char>, Balance>,
    sender: Seq<char>,
    recipient: Seq<char>,
    amount: Balance,
)
    requires
        amount > balance_of(m, sender),
    ensures
        spec_transfer(m, sender, recipient, amount) == (
            m,
            Err::<(), DispatchError>(DispatchError::InsufficientFunds),
        ),
{
}

impl Pallet {
    /// The stored balances as a mathematical map; accounts that were never
    /// written are absent.
    pub closed spec fn balances(self) -> Map<Seq<char>, Balance> {
        self.balances@
    }

    /// The balance of an account, zero where none is stored.
    pub open spec fn spec_balance(self, who: Seq<char>) -> Balance {
        balance_of(self.balances(), who)
    }

    /// A fresh instance with no balances stored.
    pub fn new() -> (p: Self)
        ensures
            p.balances() == Map::<Seq<char>, Balance>::empty(),
    {
        Pallet { balances: StorageMap::new() }
    }

    /// Set the balance of an account `who` to some `amount`, unconditionally.
    /// This is the administrative initialization path; it is not dispatchable.
    pub fn set_balance(&mut self, who: &AccountId, amount: Balance)
        ensures
            final(self).balances() == old(self).balances().insert(who@, amount),
    {
        self.balances.insert(who.clone(), amount);
    }

    /// Get the balance of an account `who`, zero if it has none stored.
    pub fn balance(&self, who: &AccountId) -> (r: Balance)
        ensures
            r == self.spec_balance(who@),
    {
        match self.balances.get(who) {
            Some(b) => *b,
            None => 0,
        }
    }

    /// Transfer `amount` from `caller` to `to`, after verifying that `caller`
    /// holds at least `amount` and that the credit cannot overflow. On any
    /// failure no balance changes; on success both balances are rewritten.
    pub fn transfer(&mut self, caller: AccountId, to: AccountId, amount: Balance) -> (r:
        DispatchResult)
        ensures
            (final(self).balances(), r) == spec_transfer(
                old(self).balances(),
                caller@,
                to@,
                amount,
            ),
    {
        let caller_balance = self.balance(&caller);
        let new_caller_balance = match caller_balance.checked_sub(amount) {
            Some(b) => b,
            None => {
                return Err(DispatchError::InsufficientFunds);
            },
        };
        // Read the credited side only after the debit is accounted for, so
        // that a transfer to oneself cannot mint funds.
        let to_balance = if to == caller {
            new_caller_balance
        } else {
            self.balance(&to)
        };
        let new_to_balance = match to_balance.checked_add(amount) {
            Some(b) => b,
            None => {
                return Err(DispatchError::Overflow);
            },
        };
        self.balances.insert(caller, new_caller_balance);
        self.balances.insert(to, new_to_balance);
        Ok(())
    }
}

/// A public enum which describes the calls this pallet exposes to the
/// dispatcher. The caller of each call is supplied by the dispatcher itself,
/// never by the extrinsic payload.
pub enum Call {
    Transfer { to: AccountId, amount: Balance },
}

/// What dispatching one balances call does to a balance map.
pub open spec fn spec_dispatch(
    m: Map<Seq<char>, Balance>,
    caller: Seq<char>,
    call: Call,
) -> (Map<Seq<char>, Balance>, DispatchResult) {
    match call {
        Call::Transfer { to, amount } => spec_transfer(m, caller, to@, amount),
    }
}

impl Dispatch for Pallet {
    type Caller = AccountId;

    type Call = Call;

    /// Route a balances call to the function it names, propagating the
    /// outcome unchanged.
    fn dispatch(&mut self, caller: Self::Caller, call: Self::Call) -> (r: DispatchResult)
        ensures
            (final(self).balances(), r) == spec_dispatch(old(self).balances(), caller@, call),
    {
        match call {
            Call::Transfer { to, amount } => {
                self.transfer(caller, to, amount)?;
            },
        }
        Ok(())
    }
}

} // verus!
