//! The HTTP endpoints of the market. Each endpoint is split at its store
//! round trips: a request function decides, from the path and body, either
//! the client error to answer with or what to ask of the repository; a reply
//! function turns the repository's outcome into the response.

use vstd::prelude::*;
use crate::object_id::{OrderId, decode_hex, is_id_text};
use crate::object_id::is_hex_of;
use crate::object_id::lemma_hex_round_trip;
use crate::order::{
    Filter,
    FieldSet,
    FilterView,
    Order,
    OrderView,
    apply_fields,
    fields_of,
    same_fields,
    select,
    selector,
    selects,
};
use crate::repository::{
    DeleteAck,
    RepoError,
    UpdateAck,
    account_orders_query,
    buy_sell_orders_query,
    insert_document,
    lower_of,
    order_query,
    update_request,
};

verus! {

/// The HTTP statuses the endpoints answer with.
#[derive(Clone, Copy, Debug, PartialEq, Eq, Structural)]
pub enum Status {
    Success,
    BadRequest,
    NotFound,
    InternalServerError,
}

pub open spec fn status_code(s: Status) -> u16 {
    match s {
        Status::Success => 200,
        Status::BadRequest => 400,
        Status::NotFound => 404,
        Status::InternalServerError => 500,
    }
}

impl Status {
    /// The numeric HTTP status.
    pub fn code(&self) -> (r: u16)
        ensures
            r == status_code(*self),
    {
        match self {
            Status::Success => 200,
            Status::BadRequest => 400,
            Status::NotFound => 404,
            Status::InternalServerError => 500,
        }
    }
}

pub open spec fn banner() -> Seq<char> {
    "Welcome to the Rusty Player Colony Market API!"@
}

pub open spec fn deleted_message() -> Seq<char> {
    "Order deleted!"@
}

/// `GET /`: the welcome banner.
pub fn hello() -> (r: &'static str)
    ensures
        r@ == banner(),
{
    "Welcome to the Rusty Player Colony Market API!"
}

/// `GET /orders`: the lookup of every order.
pub fn get_all_orders() -> (r: Filter)
    ensures
        r@ == FilterView::All,
{
    Filter::All
}

/// `GET /orders/{account}`: 400 for an empty account, else the lookup of the
/// orders that account posted.
pub fn get_account_orders(account: &String) -> (r: Result<Filter, Status>)
    ensures
        r is Err <==> account@.len() == 0,
        r matches Err(s) ==> s == Status::BadRequest,
        r matches Ok(f) ==> f@ == FilterView::PosterAccount(account@),
{
    if account.as_str().is_empty() {
        return Err(Status::BadRequest);
    }
    Ok(account_orders_query(account))
}

/// `GET /orders/buy`: the lookup of the buy orders.
pub fn get_buy_orders() -> (r: Filter)
    ensures
        r@ == FilterView::OrderType(lower_of("buy"@)),
        r@ == FilterView::OrderType("buy"@),
{
    let kind = "buy".to_owned();
    let r = buy_sell_orders_query(&kind);
    proof {
        reveal_strlit("buy");
        assert(lower_of("buy"@) =~= "buy"@);
    }
    r
}

/// `GET /orders/sell`: the lookup of the sell orders.
pub fn get_sell_orders() -> (r: Filter)
    ensures
        r@ == FilterView::OrderType(lower_of("sell"@)),
        r@ == FilterView::OrderType("sell"@),
{
    let kind = "sell".to_owned();
    let r = buy_sell_orders_query(&kind);
    proof {
        reveal_strlit("sell");
        assert(lower_of("sell"@) =~= "sell"@);
    }
    r
}

/// The answer of every listing endpoint: the orders found, or 500.
pub fn list_reply(found: Result<Vec<Order>, RepoError>) -> (r: Result<Vec<Order>, Status>)
    ensures
        found matches Ok(v) ==> r == Ok::<Vec<Order>, Status>(v),
        found is Err ==> r == Err::<Vec<Order>, Status>(Status::InternalServerError),
{
    match found {
        Ok(v) => Ok(v),
        Err(_) => Err(Status::InternalServerError),
    }
}

/// The client error for an order-id path parameter, if any: 400 when it is
/// empty or not 24 hex digits.
pub open spec fn bad_order_id(id: Seq<char>) -> bool {
    id.len() == 0 || !is_id_text(id)
}

/// `GET /order/{id}`: 400 for an empty or malformed id, else the lookup of
/// that order.
pub fn get_order(order_id: &String) -> (r: Result<Filter, Status>)
    ensures
        r is Err <==> bad_order_id(order_id@),
        r matches Err(s) ==> s == Status::BadRequest,
        r matches Ok(f) ==> f@ == FilterView::Id(decode_hex(order_id@)),
{
    if order_id.as_str().is_empty() {
        return Err(Status::BadRequest);
    }
    match order_query(order_id) {
        Ok(f) => Ok(f),
        Err(_) => Err(Status::BadRequest),
    }
}

/// The answer of a single-order read: the order, or 500 when it is missing
/// or the store failed.
pub fn order_reply(found: Result<Option<Order>, RepoError>) -> (r: Result<Order, Status>)
    ensures
        found matches Ok(Some(o)) ==> r == Ok::<Order, Status>(o),
        !(found matches Ok(Some(_))) ==> r == Err::<Order, Status>(Status::InternalServerError),
{
    match found {
        Ok(Some(o)) => Ok(o),
        _ => Err(Status::InternalServerError),
    }
}

/// `POST /order`: the document to insert, carrying the body's fields and no
/// identity, whatever identity the body held.
pub fn create_order(new_order: &Order) -> (r: Order)
    ensures
        r@.id is None,
        same_fields(r@, new_order@),
{
    insert_document(new_order)
}

/// The answer of a creation: the identity the store assigned, or 500.
pub fn created_reply(inserted: Result<OrderId, RepoError>) -> (r: Result<OrderId, Status>)
    ensures
        inserted matches Ok(id) ==> r == Ok::<OrderId, Status>(id),
        inserted is Err ==> r == Err::<OrderId, Status>(Status::InternalServerError),
{
    match inserted {
        Ok(id) => Ok(id),
        Err(_) => Err(Status::InternalServerError),
    }
}

/// `PUT /order/{id}`: 400 for an empty or malformed id, else the lookup of
/// that order and the body's fields to write into it.
pub fn update_order(existing_order_id: &String, updated_order: &Order) -> (r: Result<(Filter, FieldSet), Status>)
    ensures
        r is Err <==> bad_order_id(existing_order_id@),
        r matches Err(s) ==> s == Status::BadRequest,
        r matches Ok(p) ==> p.0@ == FilterView::Id(decode_hex(existing_order_id@)) && fields_of(
            p.1,
            updated_order@,
        ),
{
    if existing_order_id.as_str().is_empty() {
        return Err(Status::BadRequest);
    }
    match update_request(existing_order_id, updated_order) {
        Ok(p) => Ok(p),
        Err(_) => Err(Status::BadRequest),
    }
}

/// What follows an update: `Ok` when exactly one order matched, and the
/// order is then read again under the same lookup and answered with
/// `order_reply`; 404 when none matched; 500 when the store failed.
pub fn update_outcome(updated: Result<UpdateAck, RepoError>) -> (r: Result<(), Status>)
    ensures
        updated matches Ok(a) ==> (r is Ok <==> a.matched_count == 1),
        updated matches Ok(a) && a.matched_count != 1 ==> r == Err::<(), Status>(Status::NotFound),
        updated is Err ==> r == Err::<(), Status>(Status::InternalServerError),
{
    match updated {
        Ok(a) => {
            if a.matched_count == 1 {
                Ok(())
            } else {
                Err(Status::NotFound)
            }
        },
        Err(_) => Err(Status::InternalServerError),
    }
}

/// `DELETE /order/{id}`: 400 for an empty or malformed id, else the lookup of
/// the order to remove.
pub fn delete_order(order_id: &String) -> (r: Result<Filter, Status>)
    ensures
        r is Err <==> bad_order_id(order_id@),
        r matches Err(s) ==> s == Status::BadRequest,
        r matches Ok(f) ==> f@ == FilterView::Id(decode_hex(order_id@)),
{
    get_order(order_id)
}

/// The answer of a deletion: the confirmation when one order was removed,
/// 404 when none was, 500 when the store failed.
pub fn delete_reply(deleted: Result<DeleteAck, RepoError>) -> (r: Result<&'static str, Status>)
    ensures
        deleted matches Ok(a) ==> (r is Ok <==> a.deleted_count == 1),
        r matches Ok(m) ==> m@ == deleted_message(),
        deleted matches Ok(a) && a.deleted_count != 1 ==> r == Err::<&'static str, Status>(Status::NotFound),
        deleted is Err ==> r == Err::<&'static str, Status>(Status::InternalServerError),
{
    match deleted {
        Ok(a) => {
            if a.deleted_count == 1 {
                Ok("Order deleted!")
            } else {
                Err(Status::NotFound)
            }
        },
        Err(_) => Err(Status::InternalServerError),
    }
}

/// An order created from `body` and given the identity `assigned` by the
/// store is found again by the lookup of that identity's hex text, with the
/// body's field values.
pub proof fn lemma_created_order_reads_back(
    body: OrderView,
    inserted: OrderView,
    assigned: Seq<u8>,
    id_text: Seq<char>,
)
    requires
        inserted.id is None,
        same_fields(inserted, body),
        assigned.len() == 12,
        is_hex_of(id_text, assigned),
    ensures
        !bad_order_id(id_text),
        selects(FilterView::Id(decode_hex(id_text)), OrderView { id: Some(assigned), ..inserted }),
        same_fields(OrderView { id: Some(assigned), ..inserted }, body),
{
    lemma_hex_round_trip(id_text, assigned);
}

/// The buy listing holds exactly the stored orders whose kind is `buy`, and
/// the sell listing exactly those whose kind is `sell`.
pub proof fn lemma_kind_listings(docs: Seq<OrderView>)
    ensures
        forall|o: OrderView|
            #[trigger] select(docs, FilterView::OrderType("buy"@)).contains(o) <==> docs.contains(o)
                && o.order_type == "buy"@,
        forall|o: OrderView|
            #[trigger] select(docs, FilterView::OrderType("sell"@)).contains(o) <==> docs.contains(o)
                && o.order_type == "sell"@,
{
    lemma_listing_exact(docs, FilterView::OrderType("buy"@));
    lemma_listing_exact(docs, FilterView::OrderType("sell"@));
}

/// The listing of an account holds exactly the stored orders that account
/// posted, compared with case.
pub proof fn lemma_account_listing(docs: Seq<OrderView>, account: Seq<char>)
    ensures
        forall|o: OrderView|
            #[trigger] select(docs, FilterView::PosterAccount(account)).contains(o) <==> docs.contains(o)
                && o.order_poster_account == account,
{
    lemma_listing_exact(docs, FilterView::PosterAccount(account));
}

/// A listing holds exactly the stored orders its filter selects.
pub proof fn lemma_listing_exact(docs: Seq<OrderView>, f: FilterView)
    ensures
        forall|o: OrderView|
            #[trigger] select(docs, f).contains(o) <==> docs.contains(o) && selects(f, o),
{
    let p = selector(f);
    assert forall|o: OrderView| #[trigger] select(docs, f).contains(o) <==> docs.contains(o) && selects(f, o) by {
        if select(docs, f).contains(o) {
            docs.lemma_filter_contains_rev(p, o);
            let i = choose|i: int| 0 <= i < docs.filter(p).len() && docs.filter(p)[i] == o;
            docs.lemma_filter_pred(p, i);
        }
        if docs.contains(o) && selects(f, o) {
            let i = choose|i: int| 0 <= i < docs.len() && docs[i] == o;
            docs.lemma_filter_contains(p, i);
        }
    }
}

/// After an update of the order `id_text` names with the fields of `body`,
/// the same lookup still finds the order, which now carries the body's field
/// values and its old identity.
pub proof fn lemma_update_then_read(stored: OrderView, id_text: Seq<char>, body: OrderView, set: FieldSet)
    requires
        is_id_text(id_text),
        stored.id == Some(decode_hex(id_text)),
        fields_of(set, body),
    ensures
        selects(FilterView::Id(decode_hex(id_text)), apply_fields(stored, set)),
        same_fields(apply_fields(stored, set), body),
        apply_fields(stored, set).id == stored.id,
{
}

/// Updating an order with the values it already holds leaves it as it was.
pub proof fn lemma_update_with_same_values(stored: OrderView, set: FieldSet)
    requires
        fields_of(set, stored),
    ensures
        apply_fields(stored, set) == stored,
{
}

} // verus!
