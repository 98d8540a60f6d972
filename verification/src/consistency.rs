use vstd::prelude::*;

use crate::model::State;
use crate::types::{Address, DataKey, Order, OrderStatus};

verus! {

/// The part that a principal has in an order.
pub enum Role {
    Buyer,
    Farmer,
}

impl Order {
    /// The principal that has `role` in this order.
    pub open spec fn party(self, role: Role) -> Address {
        match role {
            Role::Buyer => self.buyer,
            Role::Farmer => self.farmer,
        }
    }
}

/// The ids from 1 to `upto` of the orders in which `who` has `role`, in
/// ascending order.
pub open spec fn ids_of(orders: Map<u64, Order>, role: Role, who: Address, upto: nat) -> Seq<u64>
    decreases upto,
{
    if upto == 0 {
        Seq::empty()
    } else {
        let earlier = ids_of(orders, role, who, (upto - 1) as nat);
        let id = upto as u64;
        if orders.contains_key(id) && orders[id].party(role) == who {
            earlier.push(id)
        } else {
            earlier
        }
    }
}

/// What the orders with ids from 1 to `upto` keep in custody of `token`: the
/// sum of the amounts of those that are pending.
pub open spec fn locked(orders: Map<u64, Order>, token: Address, upto: nat) -> int
    decreases upto,
{
    if upto == 0 {
        0
    } else {
        let id = upto as u64;
        locked(orders, token, (upto - 1) as nat) + if orders.contains_key(id) && orders[id].token
            == token {
            orders[id].escrowed()
        } else {
            0
        }
    }
}

impl State {
    /// The ids in use are exactly those from 1 to the counter.
    pub open spec fn ids_are_dense(self) -> bool {
        forall|id: u64|
            self.storage.orders.contains_key(id) <==> 1 <= id <= self.storage.order_count
    }

    /// Every order is recorded under its own id, has a positive amount and a
    /// token from the list.
    pub open spec fn orders_are_sound(self) -> bool {
        forall|id: u64| #[trigger]
            self.storage.orders.contains_key(id) ==> {
                let order = self.storage.orders[id];
                &&& order.id == id
                &&& order.amount > 0
                &&& self.storage.tokens().contains(order.token)
            }
    }

    /// The retention of every order's record was extended.
    pub open spec fn orders_are_retained(self) -> bool {
        forall|id: u64| #[trigger]
            self.storage.orders.contains_key(id) ==> self.storage.retention.contains(
                DataKey::Order(id),
            )
    }

    /// Each principal's lists hold exactly the ids of the orders in which it
    /// is buyer, and farmer, oldest first.
    pub open spec fn lists_follow_roles(self) -> bool {
        &&& forall|who: Address| #[trigger]
            self.storage.bought_by(who) == ids_of(
                self.storage.orders,
                Role::Buyer,
                who,
                self.storage.order_count as nat,
            )
        &&& forall|who: Address| #[trigger]
            self.storage.sold_by(who) == ids_of(
                self.storage.orders,
                Role::Farmer,
                who,
                self.storage.order_count as nat,
            )
    }

    /// Of each token, the custody account holds exactly what the pending
    /// orders account for.
    pub open spec fn custody_matches_orders(self) -> bool {
        forall|token: Address| #[trigger]
            self.custody.in_custody(token) == locked(
                self.storage.orders,
                token,
                self.storage.order_count as nat,
            )
    }

    /// The administrator and the token list were recorded together, and the
    /// list has no fewer than two entries.
    pub open spec fn configured_together(self) -> bool {
        &&& self.storage.admin is Some <==> self.storage.supported_tokens is Some
        &&& self.storage.supported_tokens is Some ==> self.storage.tokens().len() >= 2
    }

    /// What holds of every state that the contract's operations lead to.
    pub open spec fn well_formed(self) -> bool {
        &&& self.ids_are_dense()
        &&& self.orders_are_sound()
        &&& self.orders_are_retained()
        &&& self.lists_follow_roles()
        &&& self.custody_matches_orders()
        &&& self.configured_together()
    }
}

/// Two sets of orders that agree, for the ids from 1 to `upto`, on which
/// orders exist and on who has `role` in them, give the same list.
pub proof fn lemma_ids_of_agree(a: Map<u64, Order>, b: Map<u64, Order>, role: Role, who: Address, upto: nat)
    requires
        upto <= u64::MAX,
        forall|id: u64|
            1 <= id <= upto ==> (a.contains_key(id) == b.contains_key(id)) && (a.contains_key(id)
                ==> a[id].party(role) == b[id].party(role)),
    ensures
        ids_of(a, role, who, upto) == ids_of(b, role, who, upto),
    decreases upto,
{
    if upto > 0 {
        lemma_ids_of_agree(a, b, role, who, (upto - 1) as nat);
        let id = upto as u64;
        assert(1 <= id <= upto);
    }
}

/// A list holds ids from 1 to `upto`, each of an order in which `who` has
/// `role`, in strictly ascending order, and misses no such order.
pub proof fn lemma_ids_of_exact(orders: Map<u64, Order>, role: Role, who: Address, upto: nat)
    requires
        upto <= u64::MAX,
    ensures
        forall|i: int|
            0 <= i < ids_of(orders, role, who, upto).len() ==> {
                let id = #[trigger] ids_of(orders, role, who, upto)[i];
                &&& 1 <= id <= upto
                &&& orders.contains_key(id)
                &&& orders[id].party(role) == who
            },
        forall|i: int, j: int|
            0 <= i < j < ids_of(orders, role, who, upto).len() ==> ids_of(orders, role, who, upto)[i]
                < ids_of(orders, role, who, upto)[j],
        forall|id: u64|
            1 <= id <= upto && orders.contains_key(id) && orders[id].party(role) == who
                ==> ids_of(orders, role, who, upto).contains(id),
    decreases upto,
{
    if upto > 0 {
        let earlier = ids_of(orders, role, who, (upto - 1) as nat);
        let list = ids_of(orders, role, who, upto);
        let last = upto as u64;
        lemma_ids_of_exact(orders, role, who, (upto - 1) as nat);
        assert forall|id: u64|
            1 <= id <= upto && orders.contains_key(id) && orders[id].party(role) == who implies list.contains(
            id,
        ) by {
            if id == last {
                assert(list[list.len() - 1] == id);
            } else {
                assert(earlier.contains(id));
                let i = choose|i: int| 0 <= i < earlier.len() && earlier[i] == id;
                assert(list[i] == id);
            }
        }
    }
}

/// Two sets of orders that agree, for the ids from 1 to `upto`, on which
/// orders exist, on their tokens and on what they keep in custody, lock the
/// same sum.
pub proof fn lemma_locked_agree(a: Map<u64, Order>, b: Map<u64, Order>, token: Address, upto: nat)
    requires
        upto <= u64::MAX,
        forall|id: u64|
            1 <= id <= upto ==> (a.contains_key(id) == b.contains_key(id)) && (a.contains_key(id)
                ==> a[id].token == b[id].token && a[id].escrowed() == b[id].escrowed()),
    ensures
        locked(a, token, upto) == locked(b, token, upto),
    decreases upto,
{
    if upto > 0 {
        lemma_locked_agree(a, b, token, (upto - 1) as nat);
        let id = upto as u64;
        assert(1 <= id <= upto);
    }
}

/// Writing an order again with the same token changes the locked sum of that
/// token by the change in what the order keeps in custody, and no other sum.
pub proof fn lemma_locked_rewrite(orders: Map<u64, Order>, id: u64, order: Order, token: Address, upto: nat)
    requires
        upto <= u64::MAX,
        orders.contains_key(id),
        orders[id].token == order.token,
    ensures
        locked(orders.insert(id, order), token, upto) == locked(orders, token, upto) + if 1 <= id
            <= upto && order.token == token {
            order.escrowed() - orders[id].escrowed()
        } else {
            0
        },
    decreases upto,
{
    if upto > 0 {
        lemma_locked_rewrite(orders, id, order, token, (upto - 1) as nat);
    }
}

/// Where no order keeps a negative amount in custody, the locked sum of a
/// token is no less than what any one order of that token keeps.
pub proof fn lemma_locked_covers(orders: Map<u64, Order>, token: Address, upto: nat, id: u64)
    requires
        upto <= u64::MAX,
        forall|other: u64| #[trigger] orders.contains_key(other) ==> orders[other].escrowed() >= 0,
    ensures
        locked(orders, token, upto) >= 0,
        1 <= id <= upto && orders.contains_key(id) && orders[id].token == token ==> locked(
            orders,
            token,
            upto,
        ) >= orders[id].escrowed(),
    decreases upto,
{
    if upto > 0 {
        lemma_locked_covers(orders, token, (upto - 1) as nat, id);
    }
}

/// What `items` contains it still contains after another item was appended,
/// and it contains the appended item.
pub proof fn lemma_push_contains<T>(items: Seq<T>, last: T, item: T)
    requires
        items.contains(item) || item == last,
    ensures
        items.push(last).contains(item),
{
    if items.contains(item) {
        let i = choose|i: int| 0 <= i < items.len() && items[i] == item;
        assert(items.push(last)[i] == item);
    } else {
        assert(items.push(last)[items.len() as int] == item);
    }
}

/// The state before anything has happened is well formed.
pub proof fn lemma_initial_is_well_formed()
    ensures
        State::initial().well_formed(),
{
}

/// `initialize` leads from a well-formed state to a well-formed state.
pub proof fn lemma_initialize_keeps_well_formed(s: State, admin: Address, tokens: Seq<Address>)
    requires
        s.well_formed(),
    ensures
        s.initialize(admin, tokens).1.well_formed(),
{
    let t = s.initialize(admin, tokens).1;
    if s.initialize_refusal(tokens) is None {
        assert(s.storage.supported_tokens is None);
        assert forall|id: u64| !s.storage.orders.contains_key(id) by {
            if s.storage.orders.contains_key(id) {
                assert(s.storage.tokens().contains(s.storage.orders[id].token));
            }
        }
        assert forall|who: Address| #[trigger]
            t.storage.bought_by(who) == ids_of(
                t.storage.orders,
                Role::Buyer,
                who,
                t.storage.order_count as nat,
            ) by {
            assert(s.storage.bought_by(who) == t.storage.bought_by(who));
        }
        assert forall|who: Address| #[trigger]
            t.storage.sold_by(who) == ids_of(
                t.storage.orders,
                Role::Farmer,
                who,
                t.storage.order_count as nat,
            ) by {
            assert(s.storage.sold_by(who) == t.storage.sold_by(who));
        }
    }
}

/// `create_order` leads from a well-formed state to a well-formed state.
pub proof fn lemma_create_order_keeps_well_formed(
    s: State,
    buyer: Address,
    farmer: Address,
    token: Address,
    amount: i128,
)
    requires
        s.well_formed(),
        s.storage.order_count < u64::MAX,
    ensures
        s.create_order(buyer, farmer, token, amount).1.well_formed(),
{
    if s.create_order_refusal(buyer, token, amount) is None {
        let t = s.with_new_order(buyer, farmer, token, amount);
        let n = s.storage.order_count as nat;
        let id = s.next_order_id();
        let order = s.new_order(buyer, farmer, token, amount);
        assert(id == n + 1);
        assert(!s.storage.orders.contains_key(id));
        assert(t.ids_are_dense());
        assert(t.orders_are_sound());
        assert forall|other: u64| #[trigger]
            t.storage.orders.contains_key(other) implies t.storage.retention.contains(
            DataKey::Order(other),
        ) by {
            lemma_push_contains(s.storage.retention, DataKey::Order(id), DataKey::Order(other));
        }
        assert forall|who: Address| #[trigger]
            t.storage.bought_by(who) == ids_of(t.storage.orders, Role::Buyer, who, n + 1) by {
            lemma_ids_of_agree(s.storage.orders, t.storage.orders, Role::Buyer, who, n);
            assert(s.storage.bought_by(who) == ids_of(s.storage.orders, Role::Buyer, who, n));
            assert(t.storage.orders[id].party(Role::Buyer) == buyer);
        }
        assert forall|who: Address| #[trigger]
            t.storage.sold_by(who) == ids_of(t.storage.orders, Role::Farmer, who, n + 1) by {
            lemma_ids_of_agree(s.storage.orders, t.storage.orders, Role::Farmer, who, n);
            assert(s.storage.sold_by(who) == ids_of(s.storage.orders, Role::Farmer, who, n));
            assert(t.storage.orders[id].party(Role::Farmer) == farmer);
        }
        assert forall|other: Address| #[trigger]
            t.custody.in_custody(other) == locked(t.storage.orders, other, n + 1) by {
            lemma_locked_agree(s.storage.orders, t.storage.orders, other, n);
            assert(s.custody.in_custody(other) == locked(s.storage.orders, other, n));
            assert(order.escrowed() == amount);
        }
    }
}

/// In a well-formed state the custody account holds what a pending order
/// needs for its payment.
pub proof fn lemma_custody_covers(s: State, order_id: u64)
    requires
        s.well_formed(),
        s.storage.orders.contains_key(order_id),
        s.storage.orders[order_id].status is Pending,
    ensures
        s.custody.in_custody(s.storage.orders[order_id].token) >= s.storage.orders[order_id].amount,
{
    let order = s.storage.orders[order_id];
    assert forall|other: u64| #[trigger]
        s.storage.orders.contains_key(other) implies s.storage.orders[other].escrowed() >= 0 by {}
    lemma_locked_covers(s.storage.orders, order.token, s.storage.order_count as nat, order_id);
    assert(s.custody.in_custody(order.token) == locked(
        s.storage.orders,
        order.token,
        s.storage.order_count as nat,
    ));
}

/// Settling a pending order leads from a well-formed state to a well-formed
/// state.
pub proof fn lemma_settled_keeps_well_formed(s: State, order_id: u64, status: OrderStatus, to: Address)
    requires
        s.well_formed(),
        s.storage.orders.contains_key(order_id),
        s.storage.orders[order_id].status is Pending,
        !(status is Pending),
        s.custody.push_refusal(
            s.storage.orders[order_id].token,
            to,
            s.storage.orders[order_id].amount,
        ) is None,
    ensures
        s.settled(order_id, status, to).well_formed(),
{
    let t = s.settled(order_id, status, to);
    let n = s.storage.order_count as nat;
    let order = s.storage.orders[order_id];
    let after = Order { status, ..order };
    assert(t.storage.orders == s.storage.orders.insert(order_id, after));
    assert(t.ids_are_dense());
    assert(t.orders_are_sound());
    assert forall|other: u64| #[trigger]
        t.storage.orders.contains_key(other) implies t.storage.retention.contains(
        DataKey::Order(other),
    ) by {
        lemma_push_contains(s.storage.retention, DataKey::Order(order_id), DataKey::Order(other));
    }
    assert forall|who: Address| #[trigger]
        t.storage.bought_by(who) == ids_of(t.storage.orders, Role::Buyer, who, n) by {
        lemma_ids_of_agree(s.storage.orders, t.storage.orders, Role::Buyer, who, n);
        assert(s.storage.bought_by(who) == ids_of(s.storage.orders, Role::Buyer, who, n));
    }
    assert forall|who: Address| #[trigger]
        t.storage.sold_by(who) == ids_of(t.storage.orders, Role::Farmer, who, n) by {
        lemma_ids_of_agree(s.storage.orders, t.storage.orders, Role::Farmer, who, n);
        assert(s.storage.sold_by(who) == ids_of(s.storage.orders, Role::Farmer, who, n));
    }
    assert forall|token: Address| #[trigger]
        t.custody.in_custody(token) == locked(t.storage.orders, token, n) by {
        lemma_locked_rewrite(s.storage.orders, order_id, after, token, n);
        assert(s.custody.in_custody(token) == locked(s.storage.orders, token, n));
        assert(after.escrowed() == 0);
        assert(order.escrowed() == order.amount);
    }
}

/// `confirm_receipt` leads from a well-formed state to a well-formed state.
pub proof fn lemma_confirm_receipt_keeps_well_formed(s: State, buyer: Address, order_id: u64)
    requires
        s.well_formed(),
    ensures
        s.confirm_receipt(buyer, order_id).1.well_formed(),
{
    if s.confirm_receipt_refusal(buyer, order_id) is None {
        lemma_settled_keeps_well_formed(
            s,
            order_id,
            OrderStatus::Completed,
            s.storage.orders[order_id].farmer,
        );
    }
}

/// `refund_expired_order` leads from a well-formed state to a well-formed
/// state.
pub proof fn lemma_refund_keeps_well_formed(s: State, order_id: u64)
    requires
        s.well_formed(),
    ensures
        s.refund_expired_order(order_id).1.well_formed(),
{
    if s.refund_refusal(order_id) is None {
        lemma_settled_keeps_well_formed(
            s,
            order_id,
            OrderStatus::Refunded,
            s.storage.orders[order_id].buyer,
        );
    }
}

/// `refund_expired_orders` leads from a well-formed state to a well-formed
/// state.
pub proof fn lemma_refund_batch_keeps_well_formed(s: State, order_ids: Seq<u64>)
    requires
        s.well_formed(),
    ensures
        s.refund_expired_orders(order_ids).1.well_formed(),
    decreases order_ids.len(),
{
    if order_ids.len() > 0 {
        lemma_refund_keeps_well_formed(s, order_ids[0]);
        let (first, next) = s.refund_expired_order(order_ids[0]);
        if first is Ok {
            lemma_refund_batch_keeps_well_formed(next, order_ids.drop_first());
        }
    }
}

} // verus!
