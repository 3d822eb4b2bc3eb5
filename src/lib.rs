//! Player colony market: the order model, the document queries the order
//! repository runs, the request decisions of the HTTP handlers, and the
//! cross-origin response stage.

pub mod object_id;
pub mod order;
pub mod repository;
pub mod api;
pub mod cors;

pub use object_id::OrderId;
pub use order::{FieldSet, Filter, Order};
pub use repository::{DeleteAck, RepoError, UpdateAck};
pub use api::{
    Status,
    create_order,
    created_reply,
    delete_order,
    delete_reply,
    get_account_orders,
    get_all_orders,
    get_buy_orders,
    get_order,
    get_sell_orders,
    hello,
    list_reply,
    order_reply,
    update_order,
    update_outcome,
};
pub use cors::{CORS, Header, Method, Response};
