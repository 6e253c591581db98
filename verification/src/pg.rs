//! The customer table: what is asked of the relational store, and how its
//! answers are handed on.

use crate::customer_id::{parsed_uuid, uuid_parse_str, uuid_to_string};
use crate::error::{Error, Result};
use crate::model::{text_or, CustomerModel};
use crate::response::{CustomerListResponse, CustomerResponse, SingleCustomerResponse};
use vstd::prelude::*;
use vstd::string::StringExecFns;

verus! {

/// The most connections that are held open to the relational store.
pub const MAX_CONNECTIONS: u32 = 10;

/// The address of the relational store for the given account, host and
/// database. The store listens on 5432.
pub open spec fn pg_uri_text(
    username: Seq<char>,
    passwd: Seq<char>,
    host: Seq<char>,
    database: Seq<char>,
) -> Seq<char> {
    "postgresql://"@ + username + ":"@ + passwd + "@"@ + host + ":5432/"@ + database
}

/// The address under which the relational store is reached.
pub fn pg_uri(username: &str, passwd: &str, host: &str, database: &str) -> (uri: String)
    ensures
        uri@ == pg_uri_text(username@, passwd@, host@, database@),
{
    "postgresql://".to_owned().concat(username).concat(":").concat(passwd).concat("@").concat(
        host,
    ).concat(":5432/").concat(database)
}

/// Limit and offset as the listing statement takes them: the low 32 bits of
/// each, read as a signed number.
pub fn list_window(limit: i64, offset: i64) -> (window: (i32, i32))
    ensures
        window.0 == limit as i32,
        window.1 == offset as i32,
{
    (
        #[verifier::truncate]
        (limit as i32),
        #[verifier::truncate]
        (offset as i32),
    )
}

/// What becomes of a text once the driver has tried to read an identifier
/// from it: the identifier, or the driver's message as a failure of the
/// identifier.
pub open spec fn customer_id_or_failure(
    parsed: core::result::Result<[u8; 16], String>,
) -> Result<[u8; 16]> {
    match parsed {
        Ok(id) => Ok(id),
        Err(message) => Err(Error::SqlxUuid { e: message }),
    }
}

/// Hands on an identifier that the driver read, and turns the driver's
/// refusal into a failure of the identifier with the same message.
pub fn customer_id_from(parsed: core::result::Result<[u8; 16], String>) -> (id: Result<[u8; 16]>)
    ensures
        id == customer_id_or_failure(parsed),
{
    match parsed {
        Ok(id) => Ok(id),
        Err(message) => Err(Error::SqlxUuid { e: message }),
    }
}

/// Reads a customer identifier from the text of a request. A text that the
/// driver refuses is a failure of the identifier.
pub fn parse_customer_id(id: &str) -> (parsed: Result<[u8; 16]>)
    ensures
        match parsed {
            Ok(bytes) => parsed_uuid(id@) == Some(bytes@),
            Err(error) => parsed_uuid(id@) is None && error is SqlxUuid,
        },
{
    customer_id_from(uuid_parse_str(id))
}

/// The text of an optional string, or `fallback` where there is none.
fn text_or_default(value: &Option<String>, fallback: &str) -> (text: String)
    ensures
        text@ == text_or(*value, fallback@),
{
    match value {
        Some(text) => text.clone(),
        None => fallback.to_owned(),
    }
}

/// A customer in its envelope, with the given status and with the given
/// names standing in for missing ones.
fn single_customer(customer: &CustomerModel, status: &str, name: &str, surname: &str) -> (answer:
    SingleCustomerResponse)
    ensures
        answer.status@ == status@,
        answer.customer() == customer.text_with(name@, surname@),
{
    SingleCustomerResponse {
        status: status.to_owned(),
        id: uuid_to_string(&customer.customer_id),
        name: text_or_default(&customer.customer_name, name),
        surname: text_or_default(&customer.customer_surname, surname),
    }
}

/// The answer to a request that wrote a customer, given the row that the
/// store returned: a success, with "john doe" for a missing name and "doe"
/// for a missing surname.
pub fn customer_written(customer: &CustomerModel) -> (answer: SingleCustomerResponse)
    ensures
        answer.status@ == "success"@,
        answer.customer() == customer.text_with("john doe"@, "doe"@),
{
    single_customer(customer, "success", "john doe", "doe")
}

/// The answer to a request for one customer, given the row that the store
/// found: a success, with "john" for a missing name and "doe" for a missing
/// surname.
pub fn customer_found(customer: &CustomerModel) -> (answer: SingleCustomerResponse)
    ensures
        answer.status@ == "success"@,
        answer.customer() == customer.text_with("john"@, "doe"@),
{
    single_customer(customer, "success", "john", "doe")
}

/// The answer to the removal of a customer, given the row as it was before:
/// the status "deleted", with "john" for a missing name and "doe" for a
/// missing surname.
pub fn customer_deleted(customer: &CustomerModel) -> (answer: SingleCustomerResponse)
    ensures
        answer.status@ == "deleted"@,
        answer.customer() == customer.text_with("john"@, "doe"@),
{
    single_customer(customer, "deleted", "john", "doe")
}

/// Tells whether a row holds both names, so that a listing can show it.
pub fn has_names(customer: &CustomerModel) -> (named: bool)
    ensures
        named == customer.is_named(),
{
    customer.customer_name.is_some() && customer.customer_surname.is_some()
}

/// A customer as a listing shows it. The row must hold both names.
pub fn model_to_result(customer: &CustomerModel) -> (listed: Result<CustomerResponse>)
    requires
        customer.is_named(),
    ensures
        listed is Ok,
        listed->Ok_0@ == customer.listed(),
{
    Ok(
        CustomerResponse {
            id: uuid_to_string(&customer.customer_id),
            name: customer.customer_name.as_ref().unwrap().clone(),
            surname: customer.customer_surname.as_ref().unwrap().clone(),
        },
    )
}

/// The answer to a request for a page of customers: every row that the
/// store returned, in the store's order. Each row must hold both names.
pub fn customer_list(customers: &Vec<CustomerModel>) -> (answer: CustomerListResponse)
    requires
        forall|index: int| 0 <= index < customers@.len() ==> (#[trigger] customers@[index]).is_named(),
    ensures
        answer.status@ == "success"@,
        answer.data@.len() == customers@.len(),
        forall|index: int|
            0 <= index < customers@.len() ==> (#[trigger] answer.data@[index])@
                == customers@[index].listed(),
{
    let mut listed: Vec<CustomerResponse> = Vec::new();
    let mut next: usize = 0;
    while next < customers.len()
        invariant
            next <= customers@.len(),
            listed@.len() == next,
            forall|index: int|
                0 <= index < customers@.len() ==> (#[trigger] customers@[index]).is_named(),
            forall|index: int|
                0 <= index < next ==> (#[trigger] listed@[index])@ == customers@[index].listed(),
        decreases customers@.len() - next,
    {
        listed.push(model_to_result(&customers[next]).unwrap());
        next = next + 1;
    }
    CustomerListResponse { status: "success".to_owned(), data: listed }
}

} // verus!
