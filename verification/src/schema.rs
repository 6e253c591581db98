//! What a request carries: paging options, path parameters and record bodies.

use vstd::prelude::*;

verus! {

/// Number of records on a page when the request names none.
pub const DEFAULT_LIMIT: usize = 10;

/// Offset into the customer table when the request names none.
pub const DEFAULT_CUSTOMER_OFFSET: usize = 0;

/// Page of the order collection when the request names none.
pub const DEFAULT_ORDER_PAGE: usize = 1;

/// Paging options of a list request, each of them optional.
#[derive(Debug)]
pub struct FilterOptions {
    pub page: Option<usize>,
    pub limit: Option<usize>,
}

impl Default for FilterOptions {
    fn default() -> (options: Self)
        ensures
            options.page is None,
            options.limit is None,
    {
        FilterOptions { page: None, limit: None }
    }
}

/// The identifier named in a request's path.
#[derive(Debug)]
pub struct ParamOptions {
    pub id: String,
}

/// Body of a request that creates or changes an order.
#[derive(Debug)]
pub struct CreateOrderSchema {
    pub customer_name: String,
    pub product_name: String,
}

/// Body of a request that creates or changes a customer.
#[derive(Debug)]
pub struct CreateCustomerSchema {
    pub customer_name: String,
    pub customer_surname: String,
}

impl FilterOptions {
    /// The limit asked for, or the default.
    pub open spec fn limit_or_default(&self) -> usize {
        match self.limit {
            Some(limit) => limit,
            None => DEFAULT_LIMIT,
        }
    }

    /// The page asked for, or `fallback`.
    pub open spec fn page_or(&self, fallback: usize) -> usize {
        match self.page {
            Some(page) => page,
            None => fallback,
        }
    }

    /// Limit and offset of a customer listing. A missing limit is 10 and a
    /// missing page is offset 0; both are reinterpreted as signed 64-bit
    /// numbers, so a value the signed type cannot hold wraps around.
    pub fn customer_window(&self) -> (window: (i64, i64))
        ensures
            window.0 == self.limit_or_default() as i64,
            window.1 == self.page_or(DEFAULT_CUSTOMER_OFFSET) as i64,
    {
        let limit: usize = self.limit.unwrap_or(DEFAULT_LIMIT);
        let offset: usize = self.page.unwrap_or(DEFAULT_CUSTOMER_OFFSET);
        (
            #[verifier::truncate]
            (limit as i64),
            #[verifier::truncate]
            (offset as i64),
        )
    }

    /// Limit and page of an order listing. A missing limit is 10 and a
    /// missing page is page 1; both are reinterpreted as signed 64-bit
    /// numbers, so a value the signed type cannot hold wraps around.
    pub fn order_window(&self) -> (window: (i64, i64))
        ensures
            window.0 == self.limit_or_default() as i64,
            window.1 == self.page_or(DEFAULT_ORDER_PAGE) as i64,
    {
        let limit: usize = self.limit.unwrap_or(DEFAULT_LIMIT);
        let page: usize = self.page.unwrap_or(DEFAULT_ORDER_PAGE);
        (
            #[verifier::truncate]
            (limit as i64),
            #[verifier::truncate]
            (page as i64),
        )
    }
}

} // verus!
