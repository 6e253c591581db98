//! The rules of a small CRUD service over two stores: a relational table of
//! customers and a document collection of orders.
//!
//! The library holds everything the service decides or computes: how query
//! parameters become store windows, how identifiers are read and printed, how
//! store records become response envelopes, and which status a failure is
//! answered with. Talking to the network and to the stores is left to the
//! program around it, which hands plain values in and takes plain values back.

pub mod config;
pub mod customer_id;
pub mod error;
pub mod handler;
pub mod hex;
pub mod logging;
pub mod model;
pub mod mongo;
pub mod order_id;
pub mod pg;
pub mod response;
pub mod route;
pub mod schema;
pub mod status;

pub use crate::config::Config;
pub use crate::error::{ClientError, Error, Result};
