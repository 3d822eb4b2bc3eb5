//! The order record and the queries and updates the repository sends to the
//! document store.

use vstd::prelude::*;
use crate::object_id::OrderId;

verus! {

/// One standing buy or sell listing.
#[derive(Clone, Debug, PartialEq, Eq)]
pub struct Order {
    pub id: Option<OrderId>,
    pub item_name: String,
    pub item_number: i32,
    pub order_note: String,
    pub order_poster_account: String,
    pub order_type: String,
    pub price: i32,
}

/// The mathematical content of an order.
pub struct OrderView {
    pub id: Option<Seq<u8>>,
    pub item_name: Seq<char>,
    pub item_number: i32,
    pub order_note: Seq<char>,
    pub order_poster_account: Seq<char>,
    pub order_type: Seq<char>,
    pub price: i32,
}

impl View for Order {
    type V = OrderView;

    open spec fn view(&self) -> OrderView {
        OrderView {
            id: match self.id {
                Some(i) => Some(i@),
                None => None,
            },
            item_name: self.item_name@,
            item_number: self.item_number,
            order_note: self.order_note@,
            order_poster_account: self.order_poster_account@,
            order_type: self.order_type@,
            price: self.price,
        }
    }
}

/// Two orders agree on every field but the identity.
pub open spec fn same_fields(a: OrderView, b: OrderView) -> bool {
    &&& a.item_name == b.item_name
    &&& a.item_number == b.item_number
    &&& a.order_note == b.order_note
    &&& a.order_poster_account == b.order_poster_account
    &&& a.order_type == b.order_type
    &&& a.price == b.price
}

/// Which stored orders a query selects.
pub enum Filter {
    /// Every order.
    All,
    /// Orders posted by exactly this account.
    PosterAccount(String),
    /// Orders whose kind is exactly this text.
    OrderType(String),
    /// The order with this identity.
    Id(OrderId),
}

pub enum FilterView {
    All,
    PosterAccount(Seq<char>),
    OrderType(Seq<char>),
    Id(Seq<u8>),
}

impl View for Filter {
    type V = FilterView;

    open spec fn view(&self) -> FilterView {
        match self {
            Filter::All => FilterView::All,
            Filter::PosterAccount(a) => FilterView::PosterAccount(a@),
            Filter::OrderType(t) => FilterView::OrderType(t@),
            Filter::Id(i) => FilterView::Id(i@),
        }
    }
}

/// Whether a stored order is selected by a filter.
pub open spec fn selects(f: FilterView, o: OrderView) -> bool {
    match f {
        FilterView::All => true,
        FilterView::PosterAccount(a) => o.order_poster_account == a,
        FilterView::OrderType(t) => o.order_type == t,
        FilterView::Id(i) => o.id == Some(i),
    }
}

/// The stored orders a filter selects, in store order.
pub open spec fn select(docs: Seq<OrderView>, f: FilterView) -> Seq<OrderView> {
    docs.filter(selector(f))
}

/// `selects` as a predicate on orders.
pub open spec fn selector(f: FilterView) -> spec_fn(OrderView) -> bool {
    |o: OrderView| selects(f, o)
}

/// The fields an update writes into a stored order; the identity is never
/// among them.
pub struct FieldSet {
    pub item_name: String,
    pub item_number: i32,
    pub order_note: String,
    pub order_poster_account: String,
    pub order_type: String,
    pub price: i32,
}

/// A stored order after a field set has been written into it.
pub open spec fn apply_fields(stored: OrderView, set: FieldSet) -> OrderView {
    OrderView {
        id: stored.id,
        item_name: set.item_name@,
        item_number: set.item_number,
        order_note: set.order_note@,
        order_poster_account: set.order_poster_account@,
        order_type: set.order_type@,
        price: set.price,
    }
}

/// The field set holds exactly the non-identity fields of `o`.
pub open spec fn fields_of(set: FieldSet, o: OrderView) -> bool {
    &&& set.item_name@ == o.item_name
    &&& set.item_number == o.item_number
    &&& set.order_note@ == o.order_note
    &&& set.order_poster_account@ == o.order_poster_account
    &&& set.order_type@ == o.order_type
    &&& set.price == o.price
}

/// Copies a string, keeping its characters.
fn copy_string(s: &String) -> (r: String)
    ensures
        r@ == s@,
{
    s.clone()
}

impl Order {
    /// The same order with its identity cleared, so that the store assigns one.
    pub fn without_id(&self) -> (r: Order)
        ensures
            r@.id is None,
            same_fields(r@, self@),
    {
        Order {
            id: None,
            item_name: copy_string(&self.item_name),
            item_number: self.item_number,
            order_note: copy_string(&self.order_note),
            order_poster_account: copy_string(&self.order_poster_account),
            order_type: copy_string(&self.order_type),
            price: self.price,
        }
    }

    /// Every field but the identity, as an update writes them.
    pub fn field_set(&self) -> (r: FieldSet)
        ensures
            fields_of(r, self@),
    {
        FieldSet {
            item_name: copy_string(&self.item_name),
            item_number: self.item_number,
            order_note: copy_string(&self.order_note),
            order_poster_account: copy_string(&self.order_poster_account),
            order_type: copy_string(&self.order_type),
            price: self.price,
        }
    }
}

} // verus!
