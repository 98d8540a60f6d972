use vstd::prelude::*;

use crate::consistency::{
    lemma_confirm_receipt_keeps_well_formed, lemma_create_order_keeps_well_formed,
    lemma_initialize_keeps_well_formed, lemma_refund_batch_keeps_well_formed,
    lemma_refund_keeps_well_formed,
};
use crate::env::Env;
use crate::model::{expired, EXPIRY_WINDOW};
use crate::types::{Address, DataKey, EscrowError, Order, OrderStatus};

verus! {

/// The escrow contract. Each operation runs against an [`Env`] and either
/// completes, or returns an error and leaves the environment as it was.
pub struct EscrowContract;

impl EscrowContract {
    /// Records the administrator and the tokens that may be escrowed. This
    /// can be done once, and with no fewer than two tokens.
    pub fn initialize(env: &mut Env, admin: Address, supported_tokens: Vec<Address>) -> (r: Result<
        (),
        EscrowError,
    >)
        ensures
            (r, final(env)@) == old(env)@.initialize(admin, supported_tokens@),
            old(env)@.well_formed() ==> final(env)@.well_formed(),
    {
        proof {
            if env@.well_formed() {
                lemma_initialize_keeps_well_formed(env@, admin, supported_tokens@);
            }
        }
        if env.storage.has(&DataKey::Admin) {
            return Err(EscrowError::AlreadyInitialized);
        }
        if supported_tokens.len() < 2 {
            return Err(EscrowError::MustSupportTwoTokens);
        }
        env.storage.set_admin(admin);
        env.storage.set_supported_tokens(supported_tokens);
        Ok(())
    }

    /// Opens an order: moves `amount` of `token` from `buyer` into custody
    /// and records the order as pending, under the next id, which it returns.
    /// The buyer must have authorized the call.
    pub fn create_order(
        env: &mut Env,
        buyer: Address,
        farmer: Address,
        token: Address,
        amount: i128,
    ) -> (r: Result<u64, EscrowError>)
        requires
            old(env)@.storage.order_count < u64::MAX,
        ensures
            (r, final(env)@) == old(env)@.create_order(buyer, farmer, token, amount),
            old(env)@.well_formed() ==> final(env)@.well_formed(),
    {
        proof {
            if env@.well_formed() {
                lemma_create_order_keeps_well_formed(env@, buyer, farmer, token, amount);
            }
        }
        if !env.auth.allows(&buyer) {
            return Err(EscrowError::Unauthorized);
        }
        if amount <= 0 {
            return Err(EscrowError::AmountMustBePositive);
        }
        match env.storage.supports(&token) {
            None => {
                return Err(EscrowError::ContractNotInitialized);
            },
            Some(false) => {
                return Err(EscrowError::UnsupportedToken);
            },
            Some(true) => {},
        }
        if env.custody.pull(&token, &buyer, amount).is_err() {
            return Err(EscrowError::TransferFailed);
        }
        let order_id: u64 = env.storage.order_count() + 1;
        env.storage.set_order_count(order_id);

        let order = Order {
            id: order_id,
            buyer,
            farmer,
            token,
            amount,
            created_at: env.ledger.timestamp(),
            status: OrderStatus::Pending,
        };
        env.storage.set_order(order_id, order);

        let mut buyer_orders = env.storage.buyer_orders(&buyer);
        buyer_orders.push(order_id);
        env.storage.set_buyer_orders(buyer, buyer_orders);

        let mut farmer_orders = env.storage.farmer_orders(&farmer);
        farmer_orders.push(order_id);
        env.storage.set_farmer_orders(farmer, farmer_orders);

        env.storage.extend_ttl(DataKey::Order(order_id));
        Ok(order_id)
    }

    /// The buyer confirms that the goods were received: the order becomes
    /// completed and its amount moves out of custody to the farmer. The buyer
    /// must have authorized the call.
    pub fn confirm_receipt(env: &mut Env, buyer: Address, order_id: u64) -> (r: Result<(), EscrowError>)
        ensures
            (r, final(env)@) == old(env)@.confirm_receipt(buyer, order_id),
            old(env)@.well_formed() ==> final(env)@.well_formed(),
    {
        proof {
            if env@.well_formed() {
                lemma_confirm_receipt_keeps_well_formed(env@, buyer, order_id);
            }
        }
        if !env.auth.allows(&buyer) {
            return Err(EscrowError::Unauthorized);
        }
        let order = match env.storage.order(order_id) {
            Some(order) => order,
            None => {
                return Err(EscrowError::OrderDoesNotExist);
            },
        };
        if order.buyer != buyer {
            return Err(EscrowError::NotBuyer);
        }
        if order.status != OrderStatus::Pending {
            return Err(EscrowError::OrderNotPending);
        }
        Self::settle(env, order_id, order, OrderStatus::Completed, order.farmer)
    }

    /// Refunds an order whose expiry window has passed without a
    /// confirmation: the order becomes refunded and its amount moves out of
    /// custody back to the buyer. Anyone may call this.
    pub fn refund_expired_order(env: &mut Env, order_id: u64) -> (r: Result<(), EscrowError>)
        ensures
            (r, final(env)@) == old(env)@.refund_expired_order(order_id),
            old(env)@.well_formed() ==> final(env)@.well_formed(),
    {
        proof {
            if env@.well_formed() {
                lemma_refund_keeps_well_formed(env@, order_id);
            }
        }
        let order = match env.storage.order(order_id) {
            Some(order) => order,
            None => {
                return Err(EscrowError::OrderDoesNotExist);
            },
        };
        if order.status != OrderStatus::Pending {
            return Err(EscrowError::OrderNotPending);
        }
        if !Self::has_expired(&order, env.ledger.timestamp()) {
            return Err(EscrowError::OrderNotExpired);
        }
        Self::settle(env, order_id, order, OrderStatus::Refunded, order.buyer)
    }

    /// Refunds the orders of `order_ids` one after the other. The first
    /// refund that is turned down ends the call with its error; the refunds
    /// made before it stay.
    pub fn refund_expired_orders(env: &mut Env, order_ids: Vec<u64>) -> (r: Result<(), EscrowError>)
        ensures
            (r, final(env)@) == old(env)@.refund_expired_orders(order_ids@),
            old(env)@.well_formed() ==> final(env)@.well_formed(),
    {
        proof {
            if env@.well_formed() {
                lemma_refund_batch_keeps_well_formed(env@, order_ids@);
            }
        }
        let mut i: usize = 0;
        assert(order_ids@.skip(0) =~= order_ids@);
        while i < order_ids.len()
            invariant
                i <= order_ids.len(),
                env@.refund_expired_orders(order_ids@.skip(i as int)) == old(env)@.refund_expired_orders(
                    order_ids@,
                ),
                old(env)@.well_formed() ==> old(env)@.refund_expired_orders(
                    order_ids@,
                ).1.well_formed(),
            decreases order_ids.len() - i,
        {
            let ghost rest = order_ids@.skip(i as int);
            assert(rest.len() > 0 && rest[0] == order_ids@[i as int]);
            assert(rest.drop_first() =~= order_ids@.skip(i + 1));
            match Self::refund_expired_order(env, order_ids[i]) {
                Ok(()) => {},
                Err(e) => {
                    return Err(e);
                },
            }
            i += 1;
        }
        assert(order_ids@.skip(i as int).len() == 0);
        Ok(())
    }

    /// The ids of the orders that `buyer` bought, oldest first.
    pub fn get_orders_by_buyer(env: &Env, buyer: Address) -> (r: Vec<u64>)
        ensures
            r@ == env@.storage.bought_by(buyer),
    {
        env.storage.buyer_orders(&buyer)
    }

    /// The ids of the orders that `farmer` sells, oldest first.
    pub fn get_orders_by_farmer(env: &Env, farmer: Address) -> (r: Vec<u64>)
        ensures
            r@ == env@.storage.sold_by(farmer),
    {
        env.storage.farmer_orders(&farmer)
    }

    /// The order recorded under `order_id`.
    pub fn get_order_details(env: &Env, order_id: u64) -> (r: Result<Order, EscrowError>)
        ensures
            r == env@.order_details(order_id),
    {
        match env.storage.order(order_id) {
            Some(order) => Ok(order),
            None => Err(EscrowError::OrderDoesNotExist),
        }
    }

    /// The tokens that may be escrowed; none before they are recorded.
    pub fn get_supported_tokens(env: &Env) -> (r: Vec<Address>)
        ensures
            r@ == env@.storage.tokens(),
    {
        match env.storage.supported_tokens() {
            Some(tokens) => tokens,
            None => Vec::new(),
        }
    }

    /// Whether the expiry window of `order` has passed at time `now`.
    pub fn has_expired(order: &Order, now: u64) -> (r: bool)
        ensures
            r == expired(*order, now),
    {
        now >= EXPIRY_WINDOW && now - EXPIRY_WINDOW > order.created_at
    }

    /// Pays the order recorded under `order_id` out of custody to `to` and
    /// records it with `status`. The payment and the record are one step:
    /// where the payment cannot be made, nothing is written.
    fn settle(env: &mut Env, order_id: u64, order: Order, status: OrderStatus, to: Address) -> (r: Result<
        (),
        EscrowError,
    >)
        requires
            old(env)@.storage.orders.contains_key(order_id),
            old(env)@.storage.orders[order_id] == order,
        ensures
            match old(env)@.custody.push_refusal(order.token, to, order.amount) {
                Some(_) => r == Err::<(), EscrowError>(EscrowError::TransferFailed)
                    && final(env)@ == old(env)@,
                None => r == Ok::<(), EscrowError>(()) && final(env)@ == old(env)@.settled(order_id, status, to),
            },
    {
        if env.custody.push(&order.token, &to, order.amount).is_err() {
            return Err(EscrowError::TransferFailed);
        }
        env.storage.set_order(order_id, Order { status, ..order });
        env.storage.extend_ttl(DataKey::Order(order_id));
        Ok(())
    }
}

} // verus!
