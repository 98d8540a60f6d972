use vstd::prelude::*;

use crate::consistency::{
    ids_of, lemma_confirm_receipt_keeps_well_formed, lemma_create_order_keeps_well_formed,
    lemma_custody_covers, lemma_ids_of_exact, lemma_initial_is_well_formed,
    lemma_initialize_keeps_well_formed, lemma_refund_keeps_well_formed, Role,
};
use crate::custody::{Account, CustodyView};
use crate::env::AuthView;
use crate::model::State;
use crate::types::{Address, EscrowError, Order, OrderStatus};

verus! {

/// One thing that happens to the state: a call of the contract, or a change
/// in the world around it.
pub enum Event {
    Initialize { admin: Address, tokens: Seq<Address> },
    CreateOrder { buyer: Address, farmer: Address, token: Address, amount: i128 },
    ConfirmReceipt { buyer: Address, order_id: u64 },
    RefundExpiredOrder { order_id: u64 },
    RefundExpiredOrders { order_ids: Seq<u64> },
    /// Outside the contract the principals' balances, which of their accounts
    /// are frozen, the clock and the authorizations change in any way. The contract's records and its
    /// custody account are beyond the reach of such a change.
    Outside { accounts: Map<Account, i128>, frozen: Set<Account>, now: u64, auth: AuthView },
}

/// Whether `later` is `earlier` itself, or `earlier` after it was completed
/// or refunded: the same order in every other field, and a status that
/// changed, if at all, from pending to one of the two others.
pub open spec fn follows(earlier: Order, later: Order) -> bool {
    &&& later == Order { status: later.status, ..earlier }
    &&& later.status == earlier.status || earlier.status is Pending
}

impl State {
    /// The state that `event` leaves. A call that is turned down leaves the
    /// state as it was, and so does `create_order` once the ids are used up.
    pub open spec fn after(self, event: Event) -> State {
        match event {
            Event::Initialize { admin, tokens } => self.initialize(admin, tokens).1,
            Event::CreateOrder { buyer, farmer, token, amount } => if self.storage.order_count
                < u64::MAX {
                self.create_order(buyer, farmer, token, amount).1
            } else {
                self
            },
            Event::ConfirmReceipt { buyer, order_id } => self.confirm_receipt(buyer, order_id).1,
            Event::RefundExpiredOrder { order_id } => self.refund_expired_order(order_id).1,
            Event::RefundExpiredOrders { order_ids } => self.refund_expired_orders(order_ids).1,
            Event::Outside { accounts, frozen, now, auth } => State {
                custody: CustodyView { accounts, frozen, ..self.custody },
                now,
                auth,
                ..self
            },
        }
    }

    /// The state that `events` leave, one after the other.
    pub open spec fn after_all(self, events: Seq<Event>) -> State
        decreases events.len(),
    {
        if events.len() == 0 {
            self
        } else {
            self.after_all(events.drop_last()).after(events.last())
        }
    }

    /// Whether `event` is a `create_order` that succeeds in this state.
    pub open spec fn creates(self, event: Event) -> bool {
        match event {
            Event::CreateOrder { buyer, farmer, token, amount } => self.storage.order_count
                < u64::MAX && self.create_order_refusal(buyer, token, amount) is None,
            _ => false,
        }
    }

    /// The ids that the successful `create_order` calls among `events`
    /// return, in the order of the calls.
    pub open spec fn issued(self, events: Seq<Event>) -> Seq<u64>
        decreases events.len(),
    {
        if events.len() == 0 {
            Seq::empty()
        } else {
            let earlier = self.issued(events.drop_last());
            let before = self.after_all(events.drop_last());
            if before.creates(events.last()) {
                earlier.push(before.next_order_id())
            } else {
                earlier
            }
        }
    }

    /// What one event may change: the state stays well formed, the
    /// configuration once recorded stays, the counter advances by one where
    /// an order is created and not at all otherwise, and every order stays
    /// what it was but for a status that goes from pending to completed or
    /// refunded.
    pub open spec fn steps_to(self, next: State) -> bool {
        &&& next.well_formed()
        &&& self.storage.admin is Some ==> next.storage.admin == self.storage.admin
            && next.storage.supported_tokens == self.storage.supported_tokens
        &&& self.storage.order_count <= next.storage.order_count
        &&& forall|id: u64| #[trigger]
            self.storage.orders.contains_key(id) ==> next.storage.orders.contains_key(id)
                && follows(self.storage.orders[id], next.storage.orders[id])
    }
}

/// A batch of refunds changes a well-formed state as one event may.
proof fn lemma_refund_batch_steps(s: State, order_ids: Seq<u64>)
    requires
        s.well_formed(),
    ensures
        s.steps_to(s.refund_expired_orders(order_ids).1),
        s.refund_expired_orders(order_ids).1.storage.order_count == s.storage.order_count,
    decreases order_ids.len(),
{
    if order_ids.len() > 0 {
        lemma_refund_keeps_well_formed(s, order_ids[0]);
        let (first, next) = s.refund_expired_order(order_ids[0]);
        if first is Ok {
            lemma_refund_batch_steps(next, order_ids.drop_first());
            let last = next.refund_expired_orders(order_ids.drop_first()).1;
            assert forall|id: u64| #[trigger] s.storage.orders.contains_key(id) implies (
            last.storage.orders.contains_key(id) && follows(
                s.storage.orders[id],
                last.storage.orders[id],
            )) by {
                assert(next.storage.orders.contains_key(id));
            }
        }
    }
}

/// Every event changes a well-formed state as one event may, and advances
/// the counter exactly where it creates an order.
pub proof fn lemma_event_steps(s: State, event: Event)
    requires
        s.well_formed(),
    ensures
        s.steps_to(s.after(event)),
        s.after(event).storage.order_count == s.storage.order_count + if s.creates(event) {
            1int
        } else {
            0int
        },
{
    match event {
        Event::Initialize { admin, tokens } => {
            lemma_initialize_keeps_well_formed(s, admin, tokens);
        },
        Event::CreateOrder { buyer, farmer, token, amount } => {
            if s.storage.order_count < u64::MAX {
                lemma_create_order_keeps_well_formed(s, buyer, farmer, token, amount);
            }
        },
        Event::ConfirmReceipt { buyer, order_id } => {
            lemma_confirm_receipt_keeps_well_formed(s, buyer, order_id);
        },
        Event::RefundExpiredOrder { order_id } => {
            lemma_refund_keeps_well_formed(s, order_id);
        },
        Event::RefundExpiredOrders { order_ids } => {
            lemma_refund_batch_steps(s, order_ids);
        },
        Event::Outside { accounts, frozen, now, auth } => {
            let t = s.after(event);
            assert forall|token: Address| t.custody.in_custody(token) == s.custody.in_custody(
                token,
            ) by {}
            assert(t.storage == s.storage);
            assert(t.well_formed());
        },
    }
}

/// Any number of events change a well-formed state as one event may.
pub proof fn lemma_events_step(s: State, events: Seq<Event>)
    requires
        s.well_formed(),
    ensures
        s.steps_to(s.after_all(events)),
    decreases events.len(),
{
    if events.len() > 0 {
        let before = s.after_all(events.drop_last());
        lemma_events_step(s, events.drop_last());
        lemma_event_steps(before, events.last());
        let last = s.after_all(events);
        assert forall|id: u64| #[trigger] s.storage.orders.contains_key(id) implies (
        last.storage.orders.contains_key(id) && follows(
            s.storage.orders[id],
            last.storage.orders[id],
        )) by {
            assert(before.storage.orders.contains_key(id));
        }
    }
}

/// Every state that events lead to from the state before anything has
/// happened is well formed: the ids in use are exactly those from 1 to the
/// counter, every order has a positive amount and a listed token, each
/// principal's lists hold exactly its orders, and the custody account holds
/// exactly what the pending orders account for.
pub proof fn every_reachable_state_is_well_formed(events: Seq<Event>)
    ensures
        State::initial().after_all(events).well_formed(),
{
    lemma_initial_is_well_formed();
    lemma_events_step(State::initial(), events);
}

/// Once `initialize` has succeeded, every later `initialize` is turned down
/// with `AlreadyInitialized`, whatever its arguments and whatever happened in
/// between, and changes nothing.
pub proof fn initialize_succeeds_only_once(
    s: State,
    admin: Address,
    tokens: Seq<Address>,
    events: Seq<Event>,
    later_admin: Address,
    later_tokens: Seq<Address>,
)
    requires
        s.well_formed(),
        s.initialize(admin, tokens).0 is Ok,
    ensures
        ({
            let t = s.initialize(admin, tokens).1.after_all(events);
            t.initialize(later_admin, later_tokens) == (
                Err::<(), EscrowError>(EscrowError::AlreadyInitialized),
                t,
            )
        }),
{
    lemma_initialize_keeps_well_formed(s, admin, tokens);
    lemma_events_step(s.initialize(admin, tokens).1, events);
}

/// `create_order` with an amount of zero or less is turned down with
/// `AmountMustBePositive`; no funds move and no id is used. The buyer has
/// authorized the call.
pub proof fn create_order_rejects_amounts_not_positive(
    s: State,
    buyer: Address,
    farmer: Address,
    token: Address,
    amount: i128,
)
    requires
        s.auth.allows(buyer),
        amount <= 0,
    ensures
        s.create_order(buyer, farmer, token, amount) == (
            Err::<u64, EscrowError>(EscrowError::AmountMustBePositive),
            s,
        ),
{
}

/// `create_order` with a token that is not on the recorded list is turned
/// down with `UnsupportedToken`; no funds move and no id is used. The buyer
/// has authorized the call, the amount is positive and a list is recorded.
pub proof fn create_order_rejects_unlisted_tokens(
    s: State,
    buyer: Address,
    farmer: Address,
    token: Address,
    amount: i128,
)
    requires
        s.auth.allows(buyer),
        amount > 0,
        s.storage.supported_tokens is Some,
        !s.storage.tokens().contains(token),
    ensures
        s.create_order(buyer, farmer, token, amount) == (
            Err::<u64, EscrowError>(EscrowError::UnsupportedToken),
            s,
        ),
{
}

/// A call that is turned down changes nothing. Of a batch of refunds this
/// holds only where its first refund is the one turned down.
pub proof fn refused_calls_change_nothing(s: State, event: Event)
    ensures
        match event {
            Event::Initialize { admin, tokens } => s.initialize(admin, tokens).0 is Err
                ==> s.initialize(admin, tokens).1 == s,
            Event::CreateOrder { buyer, farmer, token, amount } => s.create_order(
                buyer,
                farmer,
                token,
                amount,
            ).0 is Err ==> s.create_order(buyer, farmer, token, amount).1 == s,
            Event::ConfirmReceipt { buyer, order_id } => s.confirm_receipt(buyer, order_id).0 is Err
                ==> s.confirm_receipt(buyer, order_id).1 == s,
            Event::RefundExpiredOrder { order_id } => s.refund_expired_order(order_id).0 is Err
                ==> s.refund_expired_order(order_id).1 == s,
            Event::RefundExpiredOrders { order_ids } => order_ids.len() > 0
                && s.refund_expired_order(order_ids[0]).0 is Err ==> s.refund_expired_orders(
                order_ids,
            ) == (s.refund_expired_order(order_ids[0]).0, s),
            Event::Outside { accounts, frozen, now, auth } => true,
        },
{
}

/// A successful `create_order` returns the counter plus one and advances the
/// counter to it; one that is turned down leaves the counter, and everything
/// else, as it was.
pub proof fn create_order_takes_the_next_id(
    s: State,
    buyer: Address,
    farmer: Address,
    token: Address,
    amount: i128,
)
    requires
        s.storage.order_count < u64::MAX,
    ensures
        match s.create_order(buyer, farmer, token, amount).0 {
            Ok(id) => id == s.storage.order_count + 1 && s.create_order(
                buyer,
                farmer,
                token,
                amount,
            ).1.storage.order_count == id,
            Err(_) => s.create_order(buyer, farmer, token, amount).1 == s,
        },
{
}

/// The ids that successful `create_order` calls return from a well-formed
/// state on count up from the counter, one by one, whatever else happens in
/// between; and the counter stands at the last of them.
pub proof fn lemma_issued_ids_count_up(s: State, events: Seq<Event>)
    requires
        s.well_formed(),
    ensures
        s.after_all(events).well_formed(),
        s.after_all(events).storage.order_count == s.storage.order_count + s.issued(events).len(),
        forall|i: int|
            0 <= i < s.issued(events).len() ==> #[trigger] s.issued(events)[i]
                == s.storage.order_count + i + 1,
    decreases events.len(),
{
    if events.len() > 0 {
        lemma_issued_ids_count_up(s, events.drop_last());
        lemma_event_steps(s.after_all(events.drop_last()), events.last());
    }
}

/// The ids of the orders that were created are dense and strictly
/// increasing from 1: the successful `create_order` calls return 1, 2, 3 and
/// so on, whatever happens in between, and the attempts that are turned down
/// use no id.
pub proof fn order_ids_are_dense_from_one(events: Seq<Event>)
    ensures
        forall|i: int|
            0 <= i < State::initial().issued(events).len() ==> #[trigger] State::initial().issued(
                events,
            )[i] == i + 1,
        State::initial().after_all(events).storage.order_count == State::initial().issued(
            events,
        ).len(),
        State::initial().after_all(events).ids_are_dense(),
{
    lemma_initial_is_well_formed();
    lemma_issued_ids_count_up(State::initial(), events);
}

/// An order that was completed or refunded stays exactly as it is, whatever
/// happens: the transition is made once and never reversed.
pub proof fn settled_orders_never_change(s: State, order_id: u64, events: Seq<Event>)
    requires
        s.well_formed(),
        s.storage.orders.contains_key(order_id),
        !(s.storage.orders[order_id].status is Pending),
    ensures
        s.after_all(events).storage.orders.contains_key(order_id),
        s.after_all(events).storage.orders[order_id] == s.storage.orders[order_id],
{
    lemma_events_step(s, events);
}

/// `confirm_receipt` succeeds at most once for an order. After it has
/// succeeded, whatever happens in between, a later `confirm_receipt` for that
/// order is turned down: with `OrderNotPending` where the order's buyer makes
/// the call and has authorized it, with `NotBuyer` where another principal
/// makes it and has authorized it, and with `Unauthorized` otherwise.
pub proof fn confirm_receipt_succeeds_only_once(
    s: State,
    buyer: Address,
    order_id: u64,
    events: Seq<Event>,
    caller: Address,
)
    requires
        s.well_formed(),
        s.confirm_receipt(buyer, order_id).0 is Ok,
    ensures
        ({
            let t = s.confirm_receipt(buyer, order_id).1.after_all(events);
            t.confirm_receipt(caller, order_id) == (
                Err::<(), EscrowError>(
                    if !t.auth.allows(caller) {
                        EscrowError::Unauthorized
                    } else if caller != buyer {
                        EscrowError::NotBuyer
                    } else {
                        EscrowError::OrderNotPending
                    },
                ),
                t,
            )
        }),
{
    lemma_confirm_receipt_keeps_well_formed(s, buyer, order_id);
    settled_orders_never_change(s.confirm_receipt(buyer, order_id).1, order_id, events);
}

/// An order that was refunded cannot be refunded again, nor confirmed:
/// whatever happens in between, a later `refund_expired_order` for it is
/// turned down with `OrderNotPending`.
pub proof fn refund_succeeds_only_once(s: State, order_id: u64, events: Seq<Event>)
    requires
        s.well_formed(),
        s.refund_expired_order(order_id).0 is Ok,
    ensures
        ({
            let t = s.refund_expired_order(order_id).1.after_all(events);
            &&& t.refund_expired_order(order_id) == (
                Err::<(), EscrowError>(EscrowError::OrderNotPending),
                t,
            )
            &&& forall|caller: Address| t.confirm_receipt(caller, order_id).0 is Err
        }),
{
    lemma_refund_keeps_well_formed(s, order_id);
    settled_orders_never_change(s.refund_expired_order(order_id).1, order_id, events);
}

/// `refund_expired_order` of a pending order is turned down with
/// `OrderNotExpired` while the clock stands at or before the order's creation
/// plus 345600 seconds. Once the clock stands later, it succeeds in a
/// well-formed state, unless the buyer's account is frozen or cannot take the
/// amount.
pub proof fn refund_waits_for_the_expiry(s: State, order_id: u64)
    requires
        s.storage.orders.contains_key(order_id),
        s.storage.orders[order_id].status is Pending,
    ensures
        s.now <= s.storage.orders[order_id].created_at + 345600 ==> s.refund_expired_order(order_id)
            == (Err::<(), EscrowError>(EscrowError::OrderNotExpired), s),
        s.now > s.storage.orders[order_id].created_at + 345600 && s.well_formed()
            && !s.custody.is_frozen(
            s.storage.orders[order_id].token,
            s.storage.orders[order_id].buyer,
        ) && s.custody.balance(s.storage.orders[order_id].token, s.storage.orders[order_id].buyer)
            + s.storage.orders[order_id].amount <= i128::MAX ==> s.refund_expired_order(
            order_id,
        ).0 is Ok,
{
    if s.well_formed() {
        lemma_custody_covers(s, order_id);
    }
}

/// In a well-formed state `confirm_receipt` by the buyer of a pending order,
/// who has authorized the call, succeeds, unless the farmer's account is
/// frozen or cannot take the amount: the custody account always holds what
/// the order needs.
pub proof fn confirm_receipt_finds_the_funds(s: State, order_id: u64)
    requires
        s.well_formed(),
        s.storage.orders.contains_key(order_id),
        s.storage.orders[order_id].status is Pending,
        s.auth.allows(s.storage.orders[order_id].buyer),
        !s.custody.is_frozen(s.storage.orders[order_id].token, s.storage.orders[order_id].farmer),
        s.custody.balance(s.storage.orders[order_id].token, s.storage.orders[order_id].farmer)
            + s.storage.orders[order_id].amount <= i128::MAX,
    ensures
        s.confirm_receipt(s.storage.orders[order_id].buyer, order_id).0 is Ok,
{
    lemma_custody_covers(s, order_id);
}

/// What a payment out of custody changes: the receiver holds exactly
/// `amount` more of the token, the custody account exactly `amount` less, and
/// no other balance changes.
pub proof fn lemma_push_moves_exactly(c: CustodyView, token: Address, to: Address, amount: i128)
    requires
        c.push_refusal(token, to, amount) is None,
    ensures
        c.push(token, to, amount).balance(token, to) == c.balance(token, to) + amount,
        c.push(token, to, amount).in_custody(token) == c.in_custody(token) - amount,
        forall|other: Address, who: Address|
            other != token || who != to ==> #[trigger] c.push(token, to, amount).balance(other, who)
                == c.balance(other, who),
        forall|other: Address|
            other != token ==> #[trigger] c.push(token, to, amount).in_custody(other)
                == c.in_custody(other),
{
}

/// What a payment into custody changes: the payer holds exactly `amount`
/// less of the token, the custody account exactly `amount` more, and no other
/// balance changes.
pub proof fn lemma_pull_moves_exactly(c: CustodyView, token: Address, from: Address, amount: i128)
    requires
        c.pull_refusal(token, from, amount) is None,
    ensures
        c.pull(token, from, amount).balance(token, from) == c.balance(token, from) - amount,
        c.pull(token, from, amount).in_custody(token) == c.in_custody(token) + amount,
        forall|other: Address, who: Address|
            other != token || who != from ==> #[trigger] c.pull(token, from, amount).balance(
                other,
                who,
            ) == c.balance(other, who),
        forall|other: Address|
            other != token ==> #[trigger] c.pull(token, from, amount).in_custody(other)
                == c.in_custody(other),
{
}

/// After a successful `create_order` the buyer holds exactly the amount less
/// of the token and the custody account exactly the amount more; the new
/// order is pending and keeps exactly its amount in custody.
pub proof fn create_order_locks_the_amount(
    s: State,
    buyer: Address,
    farmer: Address,
    token: Address,
    amount: i128,
)
    requires
        s.create_order(buyer, farmer, token, amount).0 is Ok,
    ensures
        ({
            let t = s.create_order(buyer, farmer, token, amount).1;
            let id = s.create_order(buyer, farmer, token, amount).0->Ok_0;
            &&& t.storage.orders.contains_key(id)
            &&& t.storage.orders[id] == s.new_order(buyer, farmer, token, amount)
            &&& t.storage.orders[id].escrowed() == amount
            &&& t.custody.balance(token, buyer) == s.custody.balance(token, buyer) - amount
            &&& t.custody.in_custody(token) == s.custody.in_custody(token) + amount
        }),
{
    lemma_pull_moves_exactly(s.custody, token, buyer, amount);
}

/// After a successful `confirm_receipt` the order is completed and keeps
/// nothing in custody, the farmer holds exactly the order's amount more of
/// its token, the custody account exactly that amount less, and no other
/// balance has changed.
pub proof fn confirm_receipt_pays_the_farmer(s: State, buyer: Address, order_id: u64)
    requires
        s.confirm_receipt(buyer, order_id).0 is Ok,
    ensures
        ({
            let t = s.confirm_receipt(buyer, order_id).1;
            let order = s.storage.orders[order_id];
            &&& t.storage.orders[order_id] == (Order { status: OrderStatus::Completed, ..order })
            &&& t.storage.orders[order_id].escrowed() == 0
            &&& t.custody.balance(order.token, order.farmer) == s.custody.balance(
                order.token,
                order.farmer,
            ) + order.amount
            &&& t.custody.in_custody(order.token) == s.custody.in_custody(order.token)
                - order.amount
            &&& forall|token: Address, who: Address|
                token != order.token || who != order.farmer ==> #[trigger] t.custody.balance(
                    token,
                    who,
                ) == s.custody.balance(token, who)
            &&& forall|token: Address|
                token != order.token ==> #[trigger] t.custody.in_custody(token)
                    == s.custody.in_custody(token)
        }),
{
    let order = s.storage.orders[order_id];
    lemma_push_moves_exactly(s.custody, order.token, order.farmer, order.amount);
}

/// After a successful `refund_expired_order` the order is refunded and keeps
/// nothing in custody, the buyer holds exactly the order's amount more of its
/// token, the custody account exactly that amount less, and no other balance
/// has changed.
pub proof fn refund_pays_the_buyer(s: State, order_id: u64)
    requires
        s.refund_expired_order(order_id).0 is Ok,
    ensures
        ({
            let t = s.refund_expired_order(order_id).1;
            let order = s.storage.orders[order_id];
            &&& t.storage.orders[order_id] == (Order { status: OrderStatus::Refunded, ..order })
            &&& t.storage.orders[order_id].escrowed() == 0
            &&& t.custody.balance(order.token, order.buyer) == s.custody.balance(
                order.token,
                order.buyer,
            ) + order.amount
            &&& t.custody.in_custody(order.token) == s.custody.in_custody(order.token)
                - order.amount
            &&& forall|token: Address, who: Address|
                token != order.token || who != order.buyer ==> #[trigger] t.custody.balance(
                    token,
                    who,
                ) == s.custody.balance(token, who)
            &&& forall|token: Address|
                token != order.token ==> #[trigger] t.custody.in_custody(token)
                    == s.custody.in_custody(token)
        }),
{
    let order = s.storage.orders[order_id];
    lemma_push_moves_exactly(s.custody, order.token, order.buyer, order.amount);
}

/// An order that is created and, once its expiry window has passed, refunded
/// leaves the buyer with the balance it had before, and the custody account
/// too, where no balance changed in between: the refund succeeds and restores
/// exactly what the order took.
pub proof fn refund_restores_what_the_order_took(
    s: State,
    buyer: Address,
    farmer: Address,
    token: Address,
    amount: i128,
    later: u64,
)
    requires
        s.well_formed(),
        s.storage.order_count < u64::MAX,
        s.create_order(buyer, farmer, token, amount).0 is Ok,
        later > s.now + 345600,
    ensures
        ({
            let id = s.create_order(buyer, farmer, token, amount).0->Ok_0;
            let t = (State { now: later, ..s.create_order(buyer, farmer, token, amount).1 });
            let u = t.refund_expired_order(id).1;
            &&& t.refund_expired_order(id).0 is Ok
            &&& u.storage.orders[id].status is Refunded
            &&& u.custody.balance(token, buyer) == s.custody.balance(token, buyer)
            &&& u.custody.in_custody(token) == s.custody.in_custody(token)
        }),
{
    let id = s.next_order_id();
    let t = State { now: later, ..s.create_order(buyer, farmer, token, amount).1 };
    lemma_create_order_keeps_well_formed(s, buyer, farmer, token, amount);
    lemma_pull_moves_exactly(s.custody, token, buyer, amount);
    lemma_event_steps(
        s.create_order(buyer, farmer, token, amount).1,
        Event::Outside {
            accounts: t.custody.accounts,
            frozen: t.custody.frozen,
            now: later,
            auth: t.auth,
        },
    );
    assert(t == s.create_order(buyer, farmer, token, amount).1.after(
        Event::Outside {
            accounts: t.custody.accounts,
            frozen: t.custody.frozen,
            now: later,
            auth: t.auth,
        },
    ));
    lemma_custody_covers(t, id);
    lemma_push_moves_exactly(t.custody, token, buyer, amount);
}

/// In a well-formed state the list that `get_orders_by_buyer` returns for a
/// principal holds only ids of orders in which that principal is the buyer,
/// holds each of them, and holds them in strictly ascending order, which is
/// the order of their creation. The same holds of `get_orders_by_farmer` and
/// the orders in which the principal is the farmer.
pub proof fn order_lists_follow_the_roles(s: State, who: Address)
    requires
        s.well_formed(),
    ensures
        forall|i: int|
            0 <= i < s.storage.bought_by(who).len() ==> {
                let id = #[trigger] s.storage.bought_by(who)[i];
                s.storage.orders.contains_key(id) && s.storage.orders[id].buyer == who
            },
        forall|id: u64|
            s.storage.orders.contains_key(id) && s.storage.orders[id].buyer == who
                ==> s.storage.bought_by(who).contains(id),
        forall|i: int, j: int|
            0 <= i < j < s.storage.bought_by(who).len() ==> s.storage.bought_by(who)[i]
                < s.storage.bought_by(who)[j],
        forall|i: int|
            0 <= i < s.storage.sold_by(who).len() ==> {
                let id = #[trigger] s.storage.sold_by(who)[i];
                s.storage.orders.contains_key(id) && s.storage.orders[id].farmer == who
            },
        forall|id: u64|
            s.storage.orders.contains_key(id) && s.storage.orders[id].farmer == who
                ==> s.storage.sold_by(who).contains(id),
        forall|i: int, j: int|
            0 <= i < j < s.storage.sold_by(who).len() ==> s.storage.sold_by(who)[i]
                < s.storage.sold_by(who)[j],
{
    let n = s.storage.order_count as nat;
    lemma_ids_of_exact(s.storage.orders, Role::Buyer, who, n);
    lemma_ids_of_exact(s.storage.orders, Role::Farmer, who, n);
    assert(s.storage.bought_by(who) == ids_of(s.storage.orders, Role::Buyer, who, n));
    assert(s.storage.sold_by(who) == ids_of(s.storage.orders, Role::Farmer, who, n));
}

/// The lists only grow: whatever happens, the list of a principal as buyer
/// begins with the list it had, and so does its list as farmer.
pub proof fn order_lists_only_grow(s: State, events: Seq<Event>, who: Address)
    requires
        s.well_formed(),
    ensures
        s.storage.bought_by(who).is_prefix_of(s.after_all(events).storage.bought_by(who)),
        s.storage.sold_by(who).is_prefix_of(s.after_all(events).storage.sold_by(who)),
    decreases events.len(),
{
    if events.len() > 0 {
        let before = s.after_all(events.drop_last());
        order_lists_only_grow(s, events.drop_last(), who);
        lemma_events_step(s, events.drop_last());
        lemma_list_grows(before, events.last(), who);
    }
}

/// One event leaves each list as it was or appends one id to it.
proof fn lemma_list_grows(s: State, event: Event, who: Address)
    requires
        s.well_formed(),
    ensures
        s.storage.bought_by(who).is_prefix_of(s.after(event).storage.bought_by(who)),
        s.storage.sold_by(who).is_prefix_of(s.after(event).storage.sold_by(who)),
{
    match event {
        Event::RefundExpiredOrders { order_ids } => {
            lemma_batch_keeps_lists(s, order_ids, who);
        },
        _ => {},
    }
}

/// A batch of refunds leaves the lists as they were.
proof fn lemma_batch_keeps_lists(s: State, order_ids: Seq<u64>, who: Address)
    ensures
        s.refund_expired_orders(order_ids).1.storage.bought_by(who) == s.storage.bought_by(who),
        s.refund_expired_orders(order_ids).1.storage.sold_by(who) == s.storage.sold_by(who),
    decreases order_ids.len(),
{
    if order_ids.len() > 0 {
        let (first, next) = s.refund_expired_order(order_ids[0]);
        if first is Ok {
            lemma_batch_keeps_lists(next, order_ids.drop_first(), who);
        }
    }
}

/// A batch of refunds is not one step. Refunding `first` and then `second`
/// in one call does what two calls do: where a refund of `first` is turned
/// down the call ends there, and otherwise the refunds of `first` stay,
/// whatever becomes of `second`.
pub proof fn refund_batch_keeps_earlier_refunds(s: State, first: Seq<u64>, second: Seq<u64>)
    ensures
        s.refund_expired_orders(first + second) == if s.refund_expired_orders(first).0 is Err {
            s.refund_expired_orders(first)
        } else {
            s.refund_expired_orders(first).1.refund_expired_orders(second)
        },
    decreases first.len(),
{
    if first.len() == 0 {
        assert(first + second =~= second);
    } else {
        assert((first + second)[0] == first[0]);
        assert((first + second).drop_first() =~= first.drop_first() + second);
        let (head, next) = s.refund_expired_order(first[0]);
        if head is Ok {
            refund_batch_keeps_earlier_refunds(next, first.drop_first(), second);
        }
    }
}

/// A batch of one refund is that refund.
pub proof fn refund_batch_of_one(s: State, order_id: u64)
    ensures
        s.refund_expired_orders(seq![order_id]) == s.refund_expired_order(order_id),
{
    let ids = seq![order_id];
    assert(ids[0] == order_id);
    assert(ids.drop_first() =~= Seq::<u64>::empty());
    let (first, next) = s.refund_expired_order(order_id);
    assert(next.refund_expired_orders(Seq::<u64>::empty()) == (Ok::<(), EscrowError>(()), next));
}

} // verus!
