use vstd::prelude::*;

use crate::table::{Key, Table};
use crate::types::Address;

verus! {

/// What a principal holds of one token.
#[derive(Clone, Copy, Debug, PartialEq, Eq, Structural)]
pub struct Account {
    pub token: Address,
    pub holder: Address,
}

impl Key for Account {
    fn same(&self, other: &Self) -> (r: bool) {
        *self == *other
    }
}

/// Why a movement of funds was not made.
#[derive(Clone, Copy, Debug, PartialEq, Eq, Structural)]
pub enum CustodyError {
    /// The amount is negative.
    NegativeAmount,
    /// The principal's account of the token is frozen.
    AccountFrozen,
    /// The paying side holds less than the amount.
    InsufficientBalance,
    /// The receiving side cannot hold that much more.
    BalanceOverflow,
}

/// The balances as mathematical maps. An account or a token without an entry
/// holds nothing.
pub struct CustodyView {
    /// What each principal holds of each token.
    pub accounts: Map<Account, i128>,
    /// What the contract's custody account holds of each token.
    pub held: Map<Address, i128>,
    /// The accounts that are frozen: nothing moves into or out of them.
    pub frozen: Set<Account>,
}

impl CustodyView {
    /// No balances at all.
    pub open spec fn empty() -> CustodyView {
        CustodyView { accounts: Map::empty(), held: Map::empty(), frozen: Set::empty() }
    }

    /// What `holder` holds of `token`.
    pub open spec fn balance(self, token: Address, holder: Address) -> int {
        let account = Account { token, holder };
        if self.accounts.contains_key(account) {
            self.accounts[account] as int
        } else {
            0
        }
    }

    /// What the custody account holds of `token`.
    pub open spec fn in_custody(self, token: Address) -> int {
        if self.held.contains_key(token) {
            self.held[token] as int
        } else {
            0
        }
    }

    /// Whether `holder`'s account of `token` is frozen.
    pub open spec fn is_frozen(self, token: Address, holder: Address) -> bool {
        self.frozen.contains(Account { token, holder })
    }

    /// The balances with `holder`'s balance of `token` set to `amount`.
    pub open spec fn with_balance(self, token: Address, holder: Address, amount: i128) -> CustodyView {
        CustodyView { accounts: self.accounts.insert(Account { token, holder }, amount), ..self }
    }

    /// The balances with the custody account's balance of `token` set to `amount`.
    pub open spec fn with_custody(self, token: Address, amount: i128) -> CustodyView {
        CustodyView { held: self.held.insert(token, amount), ..self }
    }

    /// Why `amount` of `token` cannot be issued to `to`, if it cannot.
    pub open spec fn mint_refusal(self, token: Address, to: Address, amount: i128) -> Option<CustodyError> {
        if amount < 0 {
            Some(CustodyError::NegativeAmount)
        } else if self.is_frozen(token, to) {
            Some(CustodyError::AccountFrozen)
        } else if self.balance(token, to) + amount > i128::MAX {
            Some(CustodyError::BalanceOverflow)
        } else {
            None
        }
    }

    /// The balances after `amount` of `token` was issued to `to`.
    pub open spec fn mint(self, token: Address, to: Address, amount: i128) -> CustodyView {
        self.with_balance(token, to, (self.balance(token, to) + amount) as i128)
    }

    /// Why `amount` of `token` cannot move from `from` into custody, if it
    /// cannot.
    pub open spec fn pull_refusal(self, token: Address, from: Address, amount: i128) -> Option<CustodyError> {
        if amount < 0 {
            Some(CustodyError::NegativeAmount)
        } else if self.is_frozen(token, from) {
            Some(CustodyError::AccountFrozen)
        } else if self.balance(token, from) < amount {
            Some(CustodyError::InsufficientBalance)
        } else if self.in_custody(token) + amount > i128::MAX {
            Some(CustodyError::BalanceOverflow)
        } else {
            None
        }
    }

    /// The balances after `amount` of `token` moved from `from` into custody.
    pub open spec fn pull(self, token: Address, from: Address, amount: i128) -> CustodyView {
        self.with_balance(token, from, (self.balance(token, from) - amount) as i128).with_custody(
            token,
            (self.in_custody(token) + amount) as i128,
        )
    }

    /// Why `amount` of `token` cannot move out of custody to `to`, if it
    /// cannot.
    pub open spec fn push_refusal(self, token: Address, to: Address, amount: i128) -> Option<CustodyError> {
        if amount < 0 {
            Some(CustodyError::NegativeAmount)
        } else if self.is_frozen(token, to) {
            Some(CustodyError::AccountFrozen)
        } else if self.in_custody(token) < amount {
            Some(CustodyError::InsufficientBalance)
        } else if self.balance(token, to) + amount > i128::MAX {
            Some(CustodyError::BalanceOverflow)
        } else {
            None
        }
    }

    /// The balances after `amount` of `token` moved out of custody to `to`.
    pub open spec fn push(self, token: Address, to: Address, amount: i128) -> CustodyView {
        self.with_balance(token, to, (self.balance(token, to) + amount) as i128).with_custody(
            token,
            (self.in_custody(token) - amount) as i128,
        )
    }
}

/// The balances of every token: what each principal holds, and what the
/// contract's own custody account holds. The custody account is no principal:
/// funds enter it only by [`TokenCustody::pull`] and leave it only by
/// [`TokenCustody::push`].
pub struct TokenCustody {
    accounts: Table<Account, i128>,
    held: Table<Address, i128>,
    frozen: Table<Account, bool>,
}

impl TokenCustody {
    /// The balances as mathematical maps.
    pub closed spec fn view(&self) -> CustodyView {
        CustodyView {
            accounts: self.accounts@,
            held: self.held@,
            frozen: Set::new(|a: Account| self.frozen@.contains_key(a) && self.frozen@[a]),
        }
    }

    /// No balances at all.
    pub fn new() -> (c: TokenCustody)
        ensures
            c@ == CustodyView::empty(),
    {
        let c = TokenCustody { accounts: Table::new(), held: Table::new(), frozen: Table::new() };
        assert(c@.frozen =~= Set::empty());
        c
    }

    /// What `holder` holds of `token`.
    pub fn balance(&self, token: &Address, holder: &Address) -> (r: i128)
        ensures
            r == self@.balance(*token, *holder),
    {
        match self.accounts.get(&Account { token: *token, holder: *holder }) {
            Some(amount) => *amount,
            None => 0,
        }
    }

    /// What the custody account holds of `token`.
    pub fn in_custody(&self, token: &Address) -> (r: i128)
        ensures
            r == self@.in_custody(*token),
    {
        match self.held.get(token) {
            Some(amount) => *amount,
            None => 0,
        }
    }

    /// Whether `holder`'s account of `token` is frozen.
    pub fn is_frozen(&self, token: &Address, holder: &Address) -> (r: bool)
        ensures
            r == self@.is_frozen(*token, *holder),
    {
        match self.frozen.get(&Account { token: *token, holder: *holder }) {
            Some(frozen) => *frozen,
            None => false,
        }
    }

    /// Freezes `holder`'s account of `token`, or releases it.
    pub fn set_frozen(&mut self, token: &Address, holder: &Address, frozen: bool)
        ensures
            final(self)@ == (CustodyView {
                frozen: if frozen {
                    old(self)@.frozen.insert(Account { token: *token, holder: *holder })
                } else {
                    old(self)@.frozen.remove(Account { token: *token, holder: *holder })
                },
                ..old(self)@
            }),
    {
        self.frozen.insert(Account { token: *token, holder: *holder }, frozen);
        assert(self@.frozen =~= if frozen {
            old(self)@.frozen.insert(Account { token: *token, holder: *holder })
        } else {
            old(self)@.frozen.remove(Account { token: *token, holder: *holder })
        });
    }

    /// Records that `holder` holds `amount` of `token`.
    pub fn set_balance(&mut self, token: &Address, holder: &Address, amount: i128)
        ensures
            final(self)@ == old(self)@.with_balance(*token, *holder, amount),
    {
        self.accounts.insert(Account { token: *token, holder: *holder }, amount);
    }

    /// Records that the custody account holds `amount` of `token`.
    pub fn set_in_custody(&mut self, token: &Address, amount: i128)
        ensures
            final(self)@ == old(self)@.with_custody(*token, amount),
    {
        self.held.insert(*token, amount);
    }

    /// Issues `amount` of `token` to `to`. Nothing changes when it is refused.
    pub fn mint(&mut self, token: &Address, to: &Address, amount: i128) -> (r: Result<(), CustodyError>)
        ensures
            match old(self)@.mint_refusal(*token, *to, amount) {
                Some(e) => r == Err::<(), CustodyError>(e) && final(self)@ == old(self)@,
                None => r == Ok::<(), CustodyError>(()) && final(self)@ == old(self)@.mint(*token, *to, amount),
            },
    {
        if amount < 0 {
            return Err(CustodyError::NegativeAmount);
        }
        if self.is_frozen(token, to) {
            return Err(CustodyError::AccountFrozen);
        }
        let had = self.balance(token, to);
        if had > i128::MAX - amount {
            return Err(CustodyError::BalanceOverflow);
        }
        self.accounts.insert(Account { token: *token, holder: *to }, had + amount);
        Ok(())
    }

    /// Moves `amount` of `token` from `from` into the custody account. Nothing
    /// changes when it is refused.
    pub fn pull(&mut self, token: &Address, from: &Address, amount: i128) -> (r: Result<(), CustodyError>)
        ensures
            match old(self)@.pull_refusal(*token, *from, amount) {
                Some(e) => r == Err::<(), CustodyError>(e) && final(self)@ == old(self)@,
                None => r == Ok::<(), CustodyError>(()) && final(self)@ == old(self)@.pull(*token, *from, amount),
            },
    {
        if amount < 0 {
            return Err(CustodyError::NegativeAmount);
        }
        if self.is_frozen(token, from) {
            return Err(CustodyError::AccountFrozen);
        }
        let had = self.balance(token, from);
        if had < amount {
            return Err(CustodyError::InsufficientBalance);
        }
        let kept = self.in_custody(token);
        if kept > i128::MAX - amount {
            return Err(CustodyError::BalanceOverflow);
        }
        self.accounts.insert(Account { token: *token, holder: *from }, had - amount);
        self.held.insert(*token, kept + amount);
        Ok(())
    }

    /// Moves `amount` of `token` out of the custody account to `to`. Nothing
    /// changes when it is refused.
    pub fn push(&mut self, token: &Address, to: &Address, amount: i128) -> (r: Result<(), CustodyError>)
        ensures
            match old(self)@.push_refusal(*token, *to, amount) {
                Some(e) => r == Err::<(), CustodyError>(e) && final(self)@ == old(self)@,
                None => r == Ok::<(), CustodyError>(()) && final(self)@ == old(self)@.push(*token, *to, amount),
            },
    {
        if amount < 0 {
            return Err(CustodyError::NegativeAmount);
        }
        if self.is_frozen(token, to) {
            return Err(CustodyError::AccountFrozen);
        }
        let kept = self.in_custody(token);
        if kept < amount {
            return Err(CustodyError::InsufficientBalance);
        }
        let had = self.balance(token, to);
        if had > i128::MAX - amount {
            return Err(CustodyError::BalanceOverflow);
        }
        self.accounts.insert(Account { token: *token, holder: *to }, had + amount);
        self.held.insert(*token, kept - amount);
        Ok(())
    }
}

} // verus!
