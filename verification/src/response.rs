//! What the service answers with: the envelopes around customers and orders.

use vstd::prelude::*;

verus! {

/// A bare status with a message.
#[derive(Debug, PartialEq, Eq)]
pub struct GenericResponse {
    pub status: String,
    pub message: String,
}

/// One order as a client sees it.
#[derive(Debug, PartialEq, Eq)]
pub struct OrderResponse {
    pub id: String,
    pub customer_name: String,
    pub product_name: String,
}

#[derive(Debug, PartialEq, Eq)]
pub struct OrderData {
    pub order: OrderResponse,
}

/// The envelope around one order.
#[derive(Debug, PartialEq, Eq)]
pub struct SingleOrderResponse {
    pub status: String,
    pub data: OrderData,
}

/// The answer to the removal of an order.
#[derive(Debug, PartialEq, Eq)]
pub struct DeleteOrderResponse {
    pub status: String,
    pub id: String,
}

/// The envelope around a page of orders, with their number.
#[derive(Debug, PartialEq, Eq)]
pub struct OrderListResponse {
    pub status: String,
    pub results: usize,
    pub orders: Vec<OrderResponse>,
}

/// One customer as a client sees it in a listing.
#[derive(Debug, PartialEq, Eq)]
pub struct CustomerResponse {
    pub id: String,
    pub name: String,
    pub surname: String,
}

/// The envelope around a page of customers.
#[derive(Debug, PartialEq, Eq)]
pub struct CustomerListResponse {
    pub status: String,
    pub data: Vec<CustomerResponse>,
}

/// One customer with the status of the request that touched it.
#[derive(Debug, PartialEq, Eq)]
pub struct SingleCustomerResponse {
    pub status: String,
    pub id: String,
    pub name: String,
    pub surname: String,
}

/// The text of an order as a client sees it.
pub struct OrderText {
    pub id: Seq<char>,
    pub customer_name: Seq<char>,
    pub product_name: Seq<char>,
}

/// The text of a customer as a client sees it.
pub struct CustomerText {
    pub id: Seq<char>,
    pub name: Seq<char>,
    pub surname: Seq<char>,
}

impl View for OrderResponse {
    type V = OrderText;

    open spec fn view(&self) -> OrderText {
        OrderText {
            id: self.id@,
            customer_name: self.customer_name@,
            product_name: self.product_name@,
        }
    }
}

impl View for CustomerResponse {
    type V = CustomerText;

    open spec fn view(&self) -> CustomerText {
        CustomerText { id: self.id@, name: self.name@, surname: self.surname@ }
    }
}

impl SingleCustomerResponse {
    /// The customer inside the envelope.
    pub open spec fn customer(&self) -> CustomerText {
        CustomerText { id: self.id@, name: self.name@, surname: self.surname@ }
    }
}

} // verus!
