use vstd::prelude::*;

use crate::custody::TokenCustody;
use crate::model::State;
use crate::storage::Storage;
use crate::table::Table;
use crate::types::Address;

verus! {

/// The ledger's clock.
pub struct Ledger {
    timestamp: u64,
}

impl Ledger {
    /// The time on the clock, in seconds.
    pub closed spec fn view(&self) -> u64 {
        self.timestamp
    }

    /// A clock that stands at zero.
    pub fn new() -> (l: Ledger)
        ensures
            l@ == 0,
    {
        Ledger { timestamp: 0 }
    }

    /// The time on the clock, in seconds.
    pub fn timestamp(&self) -> (t: u64)
        ensures
            t == self@,
    {
        self.timestamp
    }

    /// Sets the clock.
    pub fn set_timestamp(&mut self, timestamp: u64)
        ensures
            final(self)@ == timestamp,
    {
        self.timestamp = timestamp;
    }
}

/// Who has authorized the current call, as mathematical values.
pub struct AuthView {
    /// Whether every principal counts as having authorized.
    pub all: bool,
    /// The principals that have authorized.
    pub granted: Set<Address>,
}

impl AuthView {
    /// Nobody has authorized.
    pub open spec fn none() -> AuthView {
        AuthView { all: false, granted: Set::empty() }
    }

    /// Whether `principal` has authorized the call.
    pub open spec fn allows(self, principal: Address) -> bool {
        self.all || self.granted.contains(principal)
    }
}

/// The proof of identity that the environment holds for the current call. The
/// contract asks it whether a principal has authorized; how a principal proves
/// who it is lies outside the contract.
pub struct Authorizations {
    all: bool,
    granted: Table<Address, ()>,
}

impl Authorizations {
    /// Who has authorized, as mathematical values.
    pub closed spec fn view(&self) -> AuthView {
        AuthView { all: self.all, granted: self.granted@.dom() }
    }

    /// Nobody has authorized.
    pub fn new() -> (a: Authorizations)
        ensures
            a@ == AuthView::none(),
    {
        let a = Authorizations { all: false, granted: Table::new() };
        assert(a@.granted =~= Set::empty());
        a
    }

    /// Records that `principal` has authorized the call.
    pub fn grant(&mut self, principal: Address)
        ensures
            final(self)@ == (AuthView { granted: old(self)@.granted.insert(principal), ..old(self)@ }),
    {
        self.granted.insert(principal, ());
        assert(self@.granted =~= old(self)@.granted.insert(principal));
    }

    /// Lets every principal count as having authorized.
    pub fn grant_all(&mut self)
        ensures
            final(self)@ == (AuthView { all: true, ..old(self)@ }),
    {
        self.all = true;
    }

    /// Forgets every authorization.
    pub fn clear(&mut self)
        ensures
            final(self)@ == AuthView::none(),
    {
        self.all = false;
        self.granted = Table::new();
        assert(self@.granted =~= Set::empty());
    }

    /// Whether `principal` has authorized the call.
    pub fn allows(&self, principal: &Address) -> (r: bool)
        ensures
            r == self@.allows(*principal),
    {
        self.all || self.granted.contains_key(principal)
    }
}

/// What the contract runs against: its records, the token balances, the
/// ledger's clock and the authorizations of the current call.
pub struct Env {
    pub storage: Storage,
    pub custody: TokenCustody,
    pub ledger: Ledger,
    pub auth: Authorizations,
}

impl Env {
    /// The environment as a mathematical value.
    pub open spec fn view(&self) -> State {
        State { storage: self.storage@, custody: self.custody@, now: self.ledger@, auth: self.auth@ }
    }

    /// An environment without records, balances or authorizations, at time
    /// zero.
    pub fn new() -> (env: Env)
        ensures
            env@ == State::initial(),
    {
        Env {
            storage: Storage::new(),
            custody: TokenCustody::new(),
            ledger: Ledger::new(),
            auth: Authorizations::new(),
        }
    }

    /// Lets every principal count as having authorized.
    pub fn mock_all_auths(&mut self)
        ensures
            final(self)@ == (State {
                auth: AuthView { all: true, ..old(self)@.auth },
                ..old(self)@
            }),
    {
        self.auth.grant_all();
    }
}

} // verus!
