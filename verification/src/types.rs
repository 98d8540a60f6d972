use vstd::prelude::*;

verus! {

/// Whether an address names an account or a contract.
#[derive(Clone, Copy, Debug, PartialEq, Eq, Structural)]
pub enum AddressKind {
    Account,
    Contract,
}

/// An identity on the ledger: a principal that can authorize a call, or the
/// contract of an asset. Two addresses are the same identity exactly when
/// their kinds and their 256-bit keys are equal.
#[derive(Clone, Copy, Debug, PartialEq, Eq, Structural)]
pub struct Address {
    pub kind: AddressKind,
    pub hi: u128,
    pub lo: u128,
}

impl Address {
    /// The account with the given key.
    pub fn account(hi: u128, lo: u128) -> (a: Address)
        ensures
            a == (Address { kind: AddressKind::Account, hi, lo }),
    {
        Address { kind: AddressKind::Account, hi, lo }
    }

    /// The contract with the given key.
    pub fn contract(hi: u128, lo: u128) -> (a: Address)
        ensures
            a == (Address { kind: AddressKind::Contract, hi, lo }),
    {
        Address { kind: AddressKind::Contract, hi, lo }
    }
}

/// Why a call was abandoned. A call that returns one of these has changed
/// nothing.
#[derive(Clone, Copy, Debug, PartialEq, Eq, Structural)]
pub enum EscrowError {
    /// An administrator is already recorded.
    AlreadyInitialized,
    /// Fewer than two tokens were offered at initialization.
    MustSupportTwoTokens,
    /// The amount of an order is zero or negative.
    AmountMustBePositive,
    /// No token list has been recorded yet.
    ContractNotInitialized,
    /// The token is not on the list fixed at initialization.
    UnsupportedToken,
    /// No order is recorded under the id.
    OrderDoesNotExist,
    /// The caller is not the buyer recorded in the order.
    NotBuyer,
    /// The order was already completed or refunded.
    OrderNotPending,
    /// The expiry window of the order has not passed.
    OrderNotExpired,
    /// The principal that must authorize the call has not done so.
    Unauthorized,
    /// The custody movement that belongs to the call could not be made.
    TransferFailed,
}

/// Where an order stands in its life.
#[derive(Clone, Copy, Debug, PartialEq, Eq, Structural)]
pub enum OrderStatus {
    Pending,
    Completed,
    Refunded,
}

impl OrderStatus {
    /// Whether no transition leaves this status.
    pub fn is_terminal(&self) -> (r: bool)
        ensures
            r == !(*self is Pending),
    {
        match self {
            OrderStatus::Pending => false,
            OrderStatus::Completed => true,
            OrderStatus::Refunded => true,
        }
    }
}

/// One escrowed trade. It is written once when it is created and once more
/// when it is completed or refunded, and is never removed.
#[derive(Clone, Copy, Debug, PartialEq, Eq, Structural)]
pub struct Order {
    pub id: u64,
    pub buyer: Address,
    pub farmer: Address,
    pub token: Address,
    pub amount: i128,
    pub created_at: u64,
    pub status: OrderStatus,
}

impl Order {
    /// What the custody account holds on behalf of this order: its amount
    /// while it is pending, nothing afterwards.
    pub open spec fn escrowed(self) -> int {
        if self.status is Pending {
            self.amount as int
        } else {
            0
        }
    }
}

/// The name of a record that the contract keeps.
#[derive(Clone, Copy, Debug, PartialEq, Eq, Structural)]
pub enum DataKey {
    /// The order with this id.
    Order(u64),
    /// The ids of the orders that this principal bought, oldest first.
    BuyerOrders(Address),
    /// The ids of the orders that this principal sells, oldest first.
    FarmerOrders(Address),
    /// The id given to the latest order.
    OrderCount,
    /// The tokens that may be escrowed.
    SupportedTokens,
    /// The administrator.
    Admin,
}

} // verus!
