//! The status numbers that the service answers with.

use vstd::prelude::*;

verus! {

/// A request that was served.
pub const STATUS_OK: u16 = 200;

/// A request that created a record.
pub const STATUS_CREATED: u16 = 201;

/// A request that the stores could not serve.
pub const STATUS_BAD_REQUEST: u16 = 400;

/// A client that is not allowed in, or a path that is not known.
pub const STATUS_FORBIDDEN: u16 = 403;

/// A failure before it is given its own status.
pub const STATUS_INTERNAL_SERVER_ERROR: u16 = 500;

} // verus!
