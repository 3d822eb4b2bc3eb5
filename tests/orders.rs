use colony_market::order::FieldSet;
use colony_market::repository::{account_orders_query, buy_sell_orders_query, insert_document, order_query, update_request};
use colony_market::{
    create_order, created_reply, delete_order, delete_reply, get_account_orders, get_all_orders,
    get_buy_orders, get_order, get_sell_orders, list_reply, order_reply, update_order, update_outcome,
    DeleteAck, Filter, Order, OrderId, RepoError, Status, UpdateAck,
};

const SAMPLE_ID: &str = "639b5d9b816980de19548091";

fn sample_bytes() -> [u8; 12] {
    [0x63, 0x9b, 0x5d, 0x9b, 0x81, 0x69, 0x80, 0xde, 0x19, 0x54, 0x80, 0x91]
}

fn laser_drill(id: Option<OrderId>) -> Order {
    Order {
        id,
        item_name: "Laser Drill".to_string(),
        item_number: 3,
        order_note: "mint condition".to_string(),
        order_poster_account: "bcosta".to_string(),
        order_type: "sell".to_string(),
        price: 150,
    }
}

fn apply(stored: &Order, set: &FieldSet) -> Order {
    Order {
        id: stored.id,
        item_name: set.item_name.clone(),
        item_number: set.item_number,
        order_note: set.order_note.clone(),
        order_poster_account: set.order_poster_account.clone(),
        order_type: set.order_type.clone(),
        price: set.price,
    }
}

#[test]
fn status_codes() {
    assert_eq!(Status::Success.code(), 200);
    assert_eq!(Status::BadRequest.code(), 400);
    assert_eq!(Status::NotFound.code(), 404);
    assert_eq!(Status::InternalServerError.code(), 500);
}

#[test]
fn id_parses_in_either_case() {
    let lower = OrderId::parse(SAMPLE_ID).unwrap();
    assert_eq!(lower.bytes, sample_bytes());
    let upper = OrderId::parse("639B5D9B816980DE19548091").unwrap();
    assert_eq!(upper, lower);
}

#[test]
fn id_rejects_malformed_text() {
    assert!(OrderId::parse("").is_none());
    assert!(OrderId::parse("639b5d9b816980de1954809").is_none());
    assert!(OrderId::parse("639b5d9b816980de195480911").is_none());
    assert!(OrderId::parse("639b5d9b816980de1954809g").is_none());
    assert!(OrderId::parse("not-an-id").is_none());
}

#[test]
fn id_hex_round_trip() {
    let id = OrderId { bytes: sample_bytes() };
    assert_eq!(id.to_hex(), SAMPLE_ID);
    let upper = OrderId::parse("639B5D9B816980DE19548091").unwrap();
    assert_eq!(upper.to_hex(), SAMPLE_ID);
    assert_eq!(OrderId::parse(&id.to_hex()), Some(id));
}

#[test]
fn all_orders_lookup() {
    assert!(matches!(get_all_orders(), Filter::All));
}

#[test]
fn account_lookup_is_exact() {
    match get_account_orders(&"bcosta".to_string()) {
        Ok(Filter::PosterAccount(a)) => assert_eq!(a, "bcosta"),
        _ => panic!("expected an account lookup"),
    }
    match account_orders_query(&"BCosta".to_string()) {
        Filter::PosterAccount(a) => assert_eq!(a, "BCosta"),
        _ => panic!("expected an account lookup"),
    }
}

#[test]
fn empty_path_parameters_are_bad_requests() {
    let empty = String::new();
    assert!(matches!(get_account_orders(&empty), Err(Status::BadRequest)));
    assert!(matches!(get_order(&empty), Err(Status::BadRequest)));
    assert!(matches!(update_order(&empty, &laser_drill(None)), Err(Status::BadRequest)));
    assert!(matches!(delete_order(&empty), Err(Status::BadRequest)));
}

#[test]
fn malformed_ids_are_bad_requests() {
    let bad = "not-an-id".to_string();
    assert!(matches!(get_order(&bad), Err(Status::BadRequest)));
    assert!(matches!(update_order(&bad, &laser_drill(None)), Err(Status::BadRequest)));
    assert!(matches!(delete_order(&bad), Err(Status::BadRequest)));
    assert_eq!(order_query(&bad).err(), Some(RepoError::InvalidInput));
}

#[test]
fn id_lookups() {
    let id = SAMPLE_ID.to_string();
    match get_order(&id) {
        Ok(Filter::Id(oid)) => assert_eq!(oid.bytes, sample_bytes()),
        _ => panic!("expected an id lookup"),
    }
    match delete_order(&id) {
        Ok(Filter::Id(oid)) => assert_eq!(oid.bytes, sample_bytes()),
        _ => panic!("expected an id lookup"),
    }
}

#[test]
fn kind_lookups_are_lowercase() {
    match get_buy_orders() {
        Filter::OrderType(t) => assert_eq!(t, "buy"),
        _ => panic!("expected a kind lookup"),
    }
    match get_sell_orders() {
        Filter::OrderType(t) => assert_eq!(t, "sell"),
        _ => panic!("expected a kind lookup"),
    }
    match buy_sell_orders_query(&"SeLL".to_string()) {
        Filter::OrderType(t) => assert_eq!(t, "sell"),
        _ => panic!("expected a kind lookup"),
    }
}

#[test]
fn listing_replies() {
    let found = vec![laser_drill(None)];
    assert_eq!(list_reply(Ok(found.clone())), Ok(found));
    assert_eq!(list_reply(Ok(vec![])), Ok(vec![]));
    assert_eq!(list_reply(Err(RepoError::StoreError)), Err(Status::InternalServerError));
}

#[test]
fn single_order_replies() {
    let order = laser_drill(Some(OrderId { bytes: sample_bytes() }));
    assert_eq!(order_reply(Ok(Some(order.clone()))), Ok(order));
    assert_eq!(order_reply(Ok(None)), Err(Status::InternalServerError));
    assert_eq!(order_reply(Err(RepoError::StoreError)), Err(Status::InternalServerError));
}

#[test]
fn create_discards_the_callers_id() {
    let body = laser_drill(Some(OrderId { bytes: sample_bytes() }));
    let doc = create_order(&body);
    assert_eq!(doc, laser_drill(None));
    assert_eq!(insert_document(&body), laser_drill(None));
}

#[test]
fn create_then_read_back() {
    let doc = create_order(&laser_drill(None));
    let assigned = OrderId { bytes: [0x65, 0x1f, 0, 1, 2, 3, 4, 5, 6, 7, 8, 9] };
    let id = created_reply(Ok(assigned)).unwrap();
    assert_eq!(id.to_hex(), "651f00010203040506070809");
    let stored = Order { id: Some(id), ..doc };
    match get_order(&id.to_hex()) {
        Ok(Filter::Id(oid)) => assert_eq!(Some(oid), stored.id),
        _ => panic!("expected an id lookup"),
    }
    let read = order_reply(Ok(Some(stored))).unwrap();
    assert_eq!(read, laser_drill(Some(assigned)));
    assert_eq!(created_reply(Err(RepoError::StoreError)), Err(Status::InternalServerError));
}

#[test]
fn update_writes_every_field_but_the_id() {
    let id = SAMPLE_ID.to_string();
    let mut body = laser_drill(Some(OrderId { bytes: [0xff; 12] }));
    body.price = 175;
    body.order_type = "buy".to_string();
    let (filter, set) = update_order(&id, &body).unwrap();
    match filter {
        Filter::Id(oid) => assert_eq!(oid.bytes, sample_bytes()),
        _ => panic!("expected an id lookup"),
    }
    let stored = laser_drill(Some(OrderId { bytes: sample_bytes() }));
    let after = apply(&stored, &set);
    assert_eq!(after.id, stored.id);
    assert_eq!(after.price, 175);
    assert_eq!(after.order_type, "buy");
    assert_eq!(after.item_name, "Laser Drill");
}

#[test]
fn update_with_same_values_changes_nothing() {
    let stored = laser_drill(Some(OrderId { bytes: sample_bytes() }));
    let (_, set) = update_request(&SAMPLE_ID.to_string(), &stored).unwrap();
    assert_eq!(apply(&stored, &set), stored);
}

#[test]
fn update_outcomes() {
    assert_eq!(update_outcome(Ok(UpdateAck { matched_count: 1, modified_count: 1 })), Ok(()));
    assert_eq!(update_outcome(Ok(UpdateAck { matched_count: 1, modified_count: 0 })), Ok(()));
    assert_eq!(update_outcome(Ok(UpdateAck { matched_count: 0, modified_count: 0 })), Err(Status::NotFound));
    assert_eq!(update_outcome(Err(RepoError::StoreError)), Err(Status::InternalServerError));
}

#[test]
fn delete_replies() {
    assert_eq!(delete_reply(Ok(DeleteAck { deleted_count: 1 })), Ok("Order deleted!"));
    assert_eq!(delete_reply(Ok(DeleteAck { deleted_count: 0 })), Err(Status::NotFound));
    assert_eq!(delete_reply(Err(RepoError::StoreError)), Err(Status::InternalServerError));
}
