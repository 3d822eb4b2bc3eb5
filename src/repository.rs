//! What the order repository asks of the document store: the filter each
//! lookup runs, the document an insertion writes, and the field set an update
//! writes. Running them against the store is left to the caller.

use vstd::prelude::*;
use crate::object_id::{OrderId, decode_hex, is_id_text};
use crate::order::{Filter, FieldSet, FilterView, Order, fields_of, same_fields};

verus! {

/// Why a repository operation failed.
#[derive(Clone, Copy, Debug, PartialEq, Eq, Structural)]
pub enum RepoError {
    /// An identifier that is not 24 hex digits.
    InvalidInput,
    /// The document store could not carry out the operation.
    StoreError,
}

/// What the store reports of an update: how many documents the filter
/// matched and how many of them changed.
#[derive(Clone, Copy, Debug, PartialEq, Eq, Structural)]
pub struct UpdateAck {
    pub matched_count: u64,
    pub modified_count: u64,
}

/// What the store reports of a deletion: how many documents it removed.
#[derive(Clone, Copy, Debug, PartialEq, Eq, Structural)]
pub struct DeleteAck {
    pub deleted_count: u64,
}

/// What `str::to_lowercase` returns for `s`.
pub uninterp spec fn lower_of(s: Seq<char>) -> Seq<char>;

/// An ASCII uppercase letter.
pub open spec fn is_ascii_upper(c: char) -> bool {
    'A' <= c && c <= 'Z'
}

/// On ASCII text, `r` is `s` with `A`..`Z` lowered and every other character
/// kept.
pub open spec fn lowers_ascii(s: Seq<char>, r: Seq<char>) -> bool {
    (forall|i: int| 0 <= i < s.len() ==> (#[trigger] s[i] as u32) < 128) ==> {
        &&& r.len() == s.len()
        &&& forall|i: int|
            0 <= i < s.len() ==> if is_ascii_upper(#[trigger] s[i]) {
                r[i] as u32 == s[i] as u32 + 32
            } else {
                r[i] == s[i]
            }
    }
}

/// Relies on `str::to_lowercase`: the result depends on the characters alone,
/// and on ASCII text it lowers `A`..`Z` and keeps every other character.
#[verifier::external_body]
fn lowercase(s: &str) -> (r: String)
    ensures
        r@ == lower_of(s@),
        lowers_ascii(s@, r@),
{
    s.to_lowercase()
}

/// The lookup of every order posted by `name`, matched exactly.
pub fn account_orders_query(name: &String) -> (r: Filter)
    ensures
        r@ == FilterView::PosterAccount(name@),
{
    Filter::PosterAccount(name.clone())
}

/// The lookup of every order of one kind: the kind is lowered first, the
/// stored kinds are compared as they are.
pub fn buy_sell_orders_query(order: &String) -> (r: Filter)
    ensures
        r@ == FilterView::OrderType(lower_of(order@)),
        lowers_ascii(order@, lower_of(order@)),
{
    Filter::OrderType(lowercase(order.as_str()))
}

/// The lookup of the one order with the identity that `id` writes.
pub fn order_query(id: &String) -> (r: Result<Filter, RepoError>)
    ensures
        r is Ok <==> is_id_text(id@),
        r matches Ok(f) ==> f@ == FilterView::Id(decode_hex(id@)),
        r matches Err(e) ==> e == RepoError::InvalidInput,
{
    match OrderId::parse(id.as_str()) {
        Some(oid) => Ok(Filter::Id(oid)),
        None => Err(RepoError::InvalidInput),
    }
}

/// The document that creating `new_order` inserts: its fields, with the
/// identity left for the store to assign.
pub fn insert_document(new_order: &Order) -> (r: Order)
    ensures
        r@.id is None,
        same_fields(r@, new_order@),
{
    new_order.without_id()
}

/// The lookup and the field set that updating the order `id` with the values
/// of `updated_order` sends; any identity `updated_order` carries is ignored.
pub fn update_request(id: &String, updated_order: &Order) -> (r: Result<(Filter, FieldSet), RepoError>)
    ensures
        r is Ok <==> is_id_text(id@),
        r matches Ok(p) ==> p.0@ == FilterView::Id(decode_hex(id@)) && fields_of(p.1, updated_order@),
        r matches Err(e) ==> e == RepoError::InvalidInput,
{
    match order_query(id) {
        Ok(f) => Ok((f, updated_order.field_set())),
        Err(e) => Err(e),
    }
}

} // verus!
