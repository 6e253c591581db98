//! The order collection: what is asked of the document store, and how its
//! answers are handed on.

use crate::error::{Error, Result};
use crate::hex::hex_bytes;
use crate::model::OrderModel;
use crate::order_id::{
    is_order_id_text,
    object_id_from_str,
    object_id_to_hex,
};
use crate::response::{
    DeleteOrderResponse,
    OrderData,
    OrderListResponse,
    OrderResponse,
    SingleOrderResponse,
};
use vstd::prelude::*;
use vstd::string::StringExecFns;

verus! {

/// The address of the document store for the given account and server.
pub open spec fn mongodb_uri_text(
    username: Seq<char>,
    passwd: Seq<char>,
    server: Seq<char>,
) -> Seq<char> {
    "mongodb://"@ + username + ":"@ + passwd + "@"@ + server + "/"@
}

/// The address under which the document store is reached.
pub fn mongodb_uri(username: &str, passwd: &str, server: &str) -> (uri: String)
    ensures
        uri@ == mongodb_uri_text(username@, passwd@, server@),
{
    "mongodb://".to_owned().concat(username).concat(":").concat(passwd).concat("@").concat(
        server,
    ).concat("/")
}

/// How many orders come before page `page` when each page holds `limit`.
pub open spec fn orders_before(limit: i64, page: i64) -> int {
    (page - 1) * limit
}

/// Whether the start of page `page` can be counted in a signed 64-bit
/// number, as the count of the pages before it and as the count of their
/// orders.
pub open spec fn page_start_fits(limit: i64, page: i64) -> bool {
    i64::MIN <= page - 1 && i64::MIN <= orders_before(limit, page) <= i64::MAX
}

/// Tells whether the start of the page can be counted, so that the orders
/// before it may be asked for.
pub fn page_start_is_countable(limit: i64, page: i64) -> (countable: bool)
    ensures
        countable == page_start_fits(limit, page),
{
    match page.checked_sub(1) {
        Some(pages) => pages.checked_mul(limit).is_some(),
        None => false,
    }
}

/// The number of orders to pass over before the page asked for. Pages count
/// from 1. A page or limit that puts the start before the first order is
/// refused as a parsing failure.
pub fn order_skip(limit: i64, page: i64) -> (skip: Result<u64>)
    requires
        page_start_fits(limit, page),
    ensures
        skip is Ok <==> orders_before(limit, page) >= 0,
        skip is Ok ==> skip->Ok_0 == orders_before(limit, page),
        skip is Err ==> skip->Err_0 is MongoParsingError,
{
    let before: i64 = (page - 1) * limit;
    match u64::try_from(before) {
        Ok(skip) => Ok(skip),
        Err(error) => Err(Error::MongoParsingError { e: error.to_string() }),
    }
}

/// Reads an order identifier from the text of a request. The text must be
/// twenty-four hexadecimal digits; anything else is an invalid identifier.
pub fn parse_order_id(id: &str) -> (parsed: Result<[u8; 12]>)
    ensures
        parsed is Ok <==> is_order_id_text(id@),
        parsed is Ok ==> parsed->Ok_0@ == hex_bytes(id@),
        parsed is Err ==> parsed->Err_0 is MongoInvalidIDError,
{
    match object_id_from_str(id) {
        Ok(bytes) => Ok(bytes),
        Err(message) => Err(Error::MongoInvalidIDError { e: message }),
    }
}

/// An order as a client sees it.
pub fn doc_to_order(order: &OrderModel) -> (response: OrderResponse)
    ensures
        response@ == order.text(),
{
    OrderResponse {
        id: object_id_to_hex(&order.id),
        customer_name: order.customer_name.clone(),
        product_name: order.product_name.clone(),
    }
}

/// The answer to a request for one order, given what the store found. An
/// order that the store does not hold is a failure of the store.
pub fn single_order(found: Option<OrderModel>) -> (answer: Result<SingleOrderResponse>)
    ensures
        match found {
            Some(order) => answer is Ok && answer->Ok_0.status@ == "success"@
                && answer->Ok_0.data.order@ == order.text(),
            None => answer is Err && answer->Err_0 is MongoError,
        },
{
    match found {
        Some(order) => Ok(
            SingleOrderResponse {
                status: "success".to_owned(),
                data: OrderData { order: doc_to_order(&order) },
            },
        ),
        None => Err(Error::MongoError),
    }
}

/// The answer to a request for a page of orders: every order that the store
/// returned, in the store's order, and their number.
pub fn order_list(orders: &Vec<OrderModel>) -> (answer: OrderListResponse)
    ensures
        answer.status@ == "success"@,
        answer.results == orders@.len(),
        answer.orders@.len() == orders@.len(),
        forall|index: int|
            0 <= index < orders@.len() ==> (#[trigger] answer.orders@[index])@
                == orders@[index].text(),
{
    let mut listed: Vec<OrderResponse> = Vec::new();
    let mut next: usize = 0;
    while next < orders.len()
        invariant
            next <= orders@.len(),
            listed@.len() == next,
            forall|index: int|
                0 <= index < next ==> (#[trigger] listed@[index])@ == orders@[index].text(),
        decreases orders@.len() - next,
    {
        listed.push(doc_to_order(&orders[next]));
        next = next + 1;
    }
    OrderListResponse { status: "success".to_owned(), results: listed.len(), orders: listed }
}

/// The answer to the removal of an order: the identifier as the request
/// wrote it.
pub fn order_deleted(id: &str) -> (answer: DeleteOrderResponse)
    ensures
        answer.status@ == "deleted"@,
        answer.id@ == id@,
{
    DeleteOrderResponse { status: "deleted".to_owned(), id: id.to_owned() }
}

} // verus!
