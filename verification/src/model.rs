use vstd::prelude::*;

use crate::custody::CustodyView;
use crate::env::AuthView;
use crate::storage::StorageView;
use crate::types::{Address, DataKey, EscrowError, Order, OrderStatus};

verus! {

/// How long an order waits for its confirmation before it can be refunded:
/// ninety-six hours, in seconds.
pub const EXPIRY_WINDOW: u64 = 96 * 60 * 60;

/// Whether the expiry window of `order` has passed at time `now`. At the very
/// end of the window it has not.
pub open spec fn expired(order: Order, now: u64) -> bool {
    now > order.created_at + EXPIRY_WINDOW
}

/// Everything an operation of the contract reads or changes.
pub struct State {
    /// The contract's records.
    pub storage: StorageView,
    /// The token balances.
    pub custody: CustodyView,
    /// The time on the ledger's clock.
    pub now: u64,
    /// Who has authorized the current call.
    pub auth: AuthView,
}

impl State {
    /// The state before anything has happened.
    pub open spec fn initial() -> State {
        State {
            storage: StorageView::empty(),
            custody: CustodyView::empty(),
            now: 0,
            auth: AuthView::none(),
        }
    }

    /// Why `initialize` is turned down, if it is.
    pub open spec fn initialize_refusal(self, tokens: Seq<Address>) -> Option<EscrowError> {
        if self.storage.admin is Some {
            Some(EscrowError::AlreadyInitialized)
        } else if tokens.len() < 2 {
            Some(EscrowError::MustSupportTwoTokens)
        } else {
            None
        }
    }

    /// The state with the administrator and the token list recorded.
    pub open spec fn initialized(self, admin: Address, tokens: Seq<Address>) -> State {
        State {
            storage: StorageView { admin: Some(admin), supported_tokens: Some(tokens), ..self.storage },
            ..self
        }
    }

    /// What `initialize` returns, and the state it leaves.
    pub open spec fn initialize(self, admin: Address, tokens: Seq<Address>) -> (
        Result<(), EscrowError>,
        State,
    ) {
        match self.initialize_refusal(tokens) {
            Some(e) => (Err(e), self),
            None => (Ok(()), self.initialized(admin, tokens)),
        }
    }

    /// Why `create_order` is turned down, if it is. The checks are made in
    /// this order.
    pub open spec fn create_order_refusal(self, buyer: Address, token: Address, amount: i128) -> Option<
        EscrowError,
    > {
        if !self.auth.allows(buyer) {
            Some(EscrowError::Unauthorized)
        } else if amount <= 0 {
            Some(EscrowError::AmountMustBePositive)
        } else if self.storage.supported_tokens is None {
            Some(EscrowError::ContractNotInitialized)
        } else if !self.storage.tokens().contains(token) {
            Some(EscrowError::UnsupportedToken)
        } else if self.custody.pull_refusal(token, buyer, amount) is Some {
            Some(EscrowError::TransferFailed)
        } else {
            None
        }
    }

    /// The id that the next order gets.
    pub open spec fn next_order_id(self) -> u64 {
        (self.storage.order_count + 1) as u64
    }

    /// The order that `create_order` records.
    pub open spec fn new_order(self, buyer: Address, farmer: Address, token: Address, amount: i128) -> Order {
        Order {
            id: self.next_order_id(),
            buyer,
            farmer,
            token,
            amount,
            created_at: self.now,
            status: OrderStatus::Pending,
        }
    }

    /// The state with a new order: the amount in custody, the counter
    /// advanced, the order recorded and put on the buyer's list and on the
    /// farmer's, and its retention extended.
    pub open spec fn with_new_order(self, buyer: Address, farmer: Address, token: Address, amount: i128) -> State {
        let id = self.next_order_id();
        State {
            storage: StorageView {
                order_count: id,
                orders: self.storage.orders.insert(id, self.new_order(buyer, farmer, token, amount)),
                buyer_orders: self.storage.buyer_orders.insert(
                    buyer,
                    self.storage.bought_by(buyer).push(id),
                ),
                farmer_orders: self.storage.farmer_orders.insert(
                    farmer,
                    self.storage.sold_by(farmer).push(id),
                ),
                retention: self.storage.retention.push(DataKey::Order(id)),
                ..self.storage
            },
            custody: self.custody.pull(token, buyer, amount),
            ..self
        }
    }

    /// What `create_order` returns, and the state it leaves.
    pub open spec fn create_order(
        self,
        buyer: Address,
        farmer: Address,
        token: Address,
        amount: i128,
    ) -> (Result<u64, EscrowError>, State) {
        match self.create_order_refusal(buyer, token, amount) {
            Some(e) => (Err(e), self),
            None => (Ok(self.next_order_id()), self.with_new_order(buyer, farmer, token, amount)),
        }
    }

    /// The state with the order under `order_id` settled: its status changed
    /// to `status`, its retention extended, and its amount moved out of
    /// custody to `to`.
    pub open spec fn settled(self, order_id: u64, status: OrderStatus, to: Address) -> State {
        let order = self.storage.orders[order_id];
        State {
            storage: StorageView {
                orders: self.storage.orders.insert(order_id, Order { status, ..order }),
                retention: self.storage.retention.push(DataKey::Order(order_id)),
                ..self.storage
            },
            custody: self.custody.push(order.token, to, order.amount),
            ..self
        }
    }

    /// Why `confirm_receipt` is turned down, if it is. The checks are made in
    /// this order.
    pub open spec fn confirm_receipt_refusal(self, buyer: Address, order_id: u64) -> Option<EscrowError> {
        if !self.auth.allows(buyer) {
            Some(EscrowError::Unauthorized)
        } else if !self.storage.orders.contains_key(order_id) {
            Some(EscrowError::OrderDoesNotExist)
        } else {
            let order = self.storage.orders[order_id];
            if order.buyer != buyer {
                Some(EscrowError::NotBuyer)
            } else if !(order.status is Pending) {
                Some(EscrowError::OrderNotPending)
            } else if self.custody.push_refusal(order.token, order.farmer, order.amount) is Some {
                Some(EscrowError::TransferFailed)
            } else {
                None
            }
        }
    }

    /// What `confirm_receipt` returns, and the state it leaves.
    pub open spec fn confirm_receipt(self, buyer: Address, order_id: u64) -> (
        Result<(), EscrowError>,
        State,
    ) {
        match self.confirm_receipt_refusal(buyer, order_id) {
            Some(e) => (Err(e), self),
            None => (
                Ok(()),
                self.settled(order_id, OrderStatus::Completed, self.storage.orders[order_id].farmer),
            ),
        }
    }

    /// Why `refund_expired_order` is turned down, if it is. The checks are
    /// made in this order.
    pub open spec fn refund_refusal(self, order_id: u64) -> Option<EscrowError> {
        if !self.storage.orders.contains_key(order_id) {
            Some(EscrowError::OrderDoesNotExist)
        } else {
            let order = self.storage.orders[order_id];
            if !(order.status is Pending) {
                Some(EscrowError::OrderNotPending)
            } else if !expired(order, self.now) {
                Some(EscrowError::OrderNotExpired)
            } else if self.custody.push_refusal(order.token, order.buyer, order.amount) is Some {
                Some(EscrowError::TransferFailed)
            } else {
                None
            }
        }
    }

    /// What `refund_expired_order` returns, and the state it leaves.
    pub open spec fn refund_expired_order(self, order_id: u64) -> (Result<(), EscrowError>, State) {
        match self.refund_refusal(order_id) {
            Some(e) => (Err(e), self),
            None => (
                Ok(()),
                self.settled(order_id, OrderStatus::Refunded, self.storage.orders[order_id].buyer),
            ),
        }
    }

    /// What `refund_expired_orders` returns, and the state it leaves: the
    /// orders are refunded one after the other, and the first that is turned
    /// down ends the call with its error. The refunds made before it stay.
    pub open spec fn refund_expired_orders(self, order_ids: Seq<u64>) -> (Result<(), EscrowError>, State)
        decreases order_ids.len(),
    {
        if order_ids.len() == 0 {
            (Ok(()), self)
        } else {
            let (first, next) = self.refund_expired_order(order_ids[0]);
            if first is Err {
                (first, next)
            } else {
                next.refund_expired_orders(order_ids.drop_first())
            }
        }
    }

    /// What `get_order_details` returns.
    pub open spec fn order_details(self, order_id: u64) -> Result<Order, EscrowError> {
        if self.storage.orders.contains_key(order_id) {
            Ok(self.storage.orders[order_id])
        } else {
            Err(EscrowError::OrderDoesNotExist)
        }
    }
}

} // verus!
