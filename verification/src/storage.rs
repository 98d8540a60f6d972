use vstd::prelude::*;

use crate::table::Table;
use crate::types::{Address, DataKey, Order};

verus! {

/// The contract's records as mathematical values.
pub struct StorageView {
    /// The administrator, once recorded.
    pub admin: Option<Address>,
    /// The tokens that may be escrowed, once recorded.
    pub supported_tokens: Option<Seq<Address>>,
    /// The id given to the latest order; zero while there is none.
    pub order_count: u64,
    /// The orders by id.
    pub orders: Map<u64, Order>,
    /// For each buyer with a list, the ids on it.
    pub buyer_orders: Map<Address, Seq<u64>>,
    /// For each farmer with a list, the ids on it.
    pub farmer_orders: Map<Address, Seq<u64>>,
    /// The records whose retention was extended, in the order of the
    /// instructions.
    pub retention: Seq<DataKey>,
}

impl StorageView {
    /// No records at all.
    pub open spec fn empty() -> StorageView {
        StorageView {
            admin: None,
            supported_tokens: None,
            order_count: 0,
            orders: Map::empty(),
            buyer_orders: Map::empty(),
            farmer_orders: Map::empty(),
            retention: Seq::empty(),
        }
    }

    /// Whether a record is kept under `key`.
    pub open spec fn has(self, key: DataKey) -> bool {
        match key {
            DataKey::Order(id) => self.orders.contains_key(id),
            DataKey::BuyerOrders(buyer) => self.buyer_orders.contains_key(buyer),
            DataKey::FarmerOrders(farmer) => self.farmer_orders.contains_key(farmer),
            DataKey::OrderCount => self.order_count > 0,
            DataKey::SupportedTokens => self.supported_tokens is Some,
            DataKey::Admin => self.admin is Some,
        }
    }

    /// The ids on `buyer`'s list; none where there is no list.
    pub open spec fn bought_by(self, buyer: Address) -> Seq<u64> {
        if self.buyer_orders.contains_key(buyer) {
            self.buyer_orders[buyer]
        } else {
            Seq::empty()
        }
    }

    /// The ids on `farmer`'s list; none where there is no list.
    pub open spec fn sold_by(self, farmer: Address) -> Seq<u64> {
        if self.farmer_orders.contains_key(farmer) {
            self.farmer_orders[farmer]
        } else {
            Seq::empty()
        }
    }

    /// The tokens that may be escrowed; none before they are recorded.
    pub open spec fn tokens(self) -> Seq<Address> {
        match self.supported_tokens {
            Some(tokens) => tokens,
            None => Seq::empty(),
        }
    }
}

/// Each list of a table as a sequence.
pub open spec fn lists_view(lists: Map<Address, Vec<u64>>) -> Map<Address, Seq<u64>> {
    Map::new(|a: Address| lists.contains_key(a), |a: Address| lists[a]@)
}

/// A copy of `items`.
pub fn copy_of<T: Copy>(items: &Vec<T>) -> (r: Vec<T>)
    ensures
        r@ == items@,
{
    let mut r: Vec<T> = Vec::new();
    let mut i: usize = 0;
    while i < items.len()
        invariant
            i <= items.len(),
            r@ == items@.take(i as int),
        decreases items.len() - i,
    {
        r.push(items[i]);
        assert(items@.take(i + 1) =~= items@.take(i as int).push(items@[i as int]));
        i += 1;
    }
    assert(items@.take(items.len() as int) =~= items@);
    r
}

/// Whether `address` occurs in `addresses`.
pub fn contains_address(addresses: &Vec<Address>, address: &Address) -> (r: bool)
    ensures
        r == addresses@.contains(*address),
{
    let mut i: usize = 0;
    while i < addresses.len()
        invariant
            i <= addresses.len(),
            forall|j: int| 0 <= j < i ==> addresses@[j] != *address,
        decreases addresses.len() - i,
    {
        if addresses[i] == *address {
            assert(addresses@[i as int] == *address);
            return true;
        }
        i += 1;
    }
    false
}

/// The records that the contract keeps, each under its [`DataKey`], and the
/// instructions to extend a record's retention that were given so far.
pub struct Storage {
    admin: Option<Address>,
    supported_tokens: Option<Vec<Address>>,
    order_count: u64,
    orders: Table<u64, Order>,
    buyer_orders: Table<Address, Vec<u64>>,
    farmer_orders: Table<Address, Vec<u64>>,
    retention: Vec<DataKey>,
}

impl Storage {
    /// The records as mathematical values.
    pub closed spec fn view(&self) -> StorageView {
        StorageView {
            admin: self.admin,
            supported_tokens: match self.supported_tokens {
                Some(tokens) => Some(tokens@),
                None => None,
            },
            order_count: self.order_count,
            orders: self.orders@,
            buyer_orders: lists_view(self.buyer_orders@),
            farmer_orders: lists_view(self.farmer_orders@),
            retention: self.retention@,
        }
    }

    /// A store without records.
    pub fn new() -> (s: Storage)
        ensures
            s@ == StorageView::empty(),
    {
        let s = Storage {
            admin: None,
            supported_tokens: None,
            order_count: 0,
            orders: Table::new(),
            buyer_orders: Table::new(),
            farmer_orders: Table::new(),
            retention: Vec::new(),
        };
        assert(s@.buyer_orders =~= Map::empty());
        assert(s@.farmer_orders =~= Map::empty());
        s
    }

    /// Whether a record is kept under `key`.
    pub fn has(&self, key: &DataKey) -> (r: bool)
        ensures
            r == self@.has(*key),
    {
        match key {
            DataKey::Order(id) => self.orders.contains_key(id),
            DataKey::BuyerOrders(buyer) => self.buyer_orders.contains_key(buyer),
            DataKey::FarmerOrders(farmer) => self.farmer_orders.contains_key(farmer),
            DataKey::OrderCount => self.order_count > 0,
            DataKey::SupportedTokens => self.supported_tokens.is_some(),
            DataKey::Admin => self.admin.is_some(),
        }
    }

    /// The administrator, once recorded.
    pub fn admin(&self) -> (r: Option<Address>)
        ensures
            r == self@.admin,
    {
        self.admin
    }

    /// Records the administrator.
    pub fn set_admin(&mut self, admin: Address)
        ensures
            final(self)@ == (StorageView { admin: Some(admin), ..old(self)@ }),
    {
        self.admin = Some(admin);
    }

    /// The tokens that may be escrowed, once recorded.
    pub fn supported_tokens(&self) -> (r: Option<Vec<Address>>)
        ensures
            match r {
                Some(tokens) => self@.supported_tokens == Some(tokens@),
                None => self@.supported_tokens is None,
            },
    {
        match &self.supported_tokens {
            Some(tokens) => Some(copy_of(tokens)),
            None => None,
        }
    }

    /// Whether `token` is among the tokens that may be escrowed; `None` before
    /// they are recorded.
    pub fn supports(&self, token: &Address) -> (r: Option<bool>)
        ensures
            r == match self@.supported_tokens {
                Some(tokens) => Some(tokens.contains(*token)),
                None => None,
            },
    {
        match &self.supported_tokens {
            Some(tokens) => Some(contains_address(tokens, token)),
            None => None,
        }
    }

    /// Records the tokens that may be escrowed.
    pub fn set_supported_tokens(&mut self, tokens: Vec<Address>)
        ensures
            final(self)@ == (StorageView { supported_tokens: Some(tokens@), ..old(self)@ }),
    {
        self.supported_tokens = Some(tokens);
    }

    /// The id given to the latest order; zero while there is none.
    pub fn order_count(&self) -> (r: u64)
        ensures
            r == self@.order_count,
    {
        self.order_count
    }

    /// Records the id given to the latest order.
    pub fn set_order_count(&mut self, count: u64)
        ensures
            final(self)@ == (StorageView { order_count: count, ..old(self)@ }),
    {
        self.order_count = count;
    }

    /// The order recorded under `id`.
    pub fn order(&self, id: u64) -> (r: Option<Order>)
        ensures
            r == (if self@.orders.contains_key(id) {
                Some(self@.orders[id])
            } else {
                None
            }),
    {
        match self.orders.get(&id) {
            Some(order) => Some(*order),
            None => None,
        }
    }

    /// Records `order` under `id`, in place of what was recorded there.
    pub fn set_order(&mut self, id: u64, order: Order)
        ensures
            final(self)@ == (StorageView { orders: old(self)@.orders.insert(id, order), ..old(self)@ }),
    {
        self.orders.insert(id, order);
    }

    /// The ids on `buyer`'s list; none where there is no list.
    pub fn buyer_orders(&self, buyer: &Address) -> (r: Vec<u64>)
        ensures
            r@ == self@.bought_by(*buyer),
    {
        match self.buyer_orders.get(buyer) {
            Some(ids) => copy_of(ids),
            None => Vec::new(),
        }
    }

    /// Records `ids` as `buyer`'s list.
    pub fn set_buyer_orders(&mut self, buyer: Address, ids: Vec<u64>)
        ensures
            final(self)@ == (StorageView {
                buyer_orders: old(self)@.buyer_orders.insert(buyer, ids@),
                ..old(self)@
            }),
    {
        self.buyer_orders.insert(buyer, ids);
        assert(self@.buyer_orders =~= old(self)@.buyer_orders.insert(buyer, ids@));
    }

    /// The ids on `farmer`'s list; none where there is no list.
    pub fn farmer_orders(&self, farmer: &Address) -> (r: Vec<u64>)
        ensures
            r@ == self@.sold_by(*farmer),
    {
        match self.farmer_orders.get(farmer) {
            Some(ids) => copy_of(ids),
            None => Vec::new(),
        }
    }

    /// Records `ids` as `farmer`'s list.
    pub fn set_farmer_orders(&mut self, farmer: Address, ids: Vec<u64>)
        ensures
            final(self)@ == (StorageView {
                farmer_orders: old(self)@.farmer_orders.insert(farmer, ids@),
                ..old(self)@
            }),
    {
        self.farmer_orders.insert(farmer, ids);
        assert(self@.farmer_orders =~= old(self)@.farmer_orders.insert(farmer, ids@));
    }

    /// Instructs the store to keep the record under `key` for longer.
    pub fn extend_ttl(&mut self, key: DataKey)
        ensures
            final(self)@ == (StorageView { retention: old(self)@.retention.push(key), ..old(self)@ }),
    {
        self.retention.push(key);
    }

    /// The records whose retention was extended, in the order of the
    /// instructions.
    pub fn retention(&self) -> (r: Vec<DataKey>)
        ensures
            r@ == self@.retention,
    {
        copy_of(&self.retention)
    }
}

} // verus!
