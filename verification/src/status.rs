//! The statuses that the service answers with.

use vstd::prelude::*;

verus! {

/// The request was served.
pub const OK: u16 = 200;

/// The item was stored.
pub const CREATED: u16 = 201;

/// Outside work on the request's input failed.
pub const BAD_REQUEST: u16 = 400;

/// The credential check turned the request away.
pub const UNAUTHORIZED: u16 = 401;

/// There is no such item.
pub const NOT_FOUND: u16 = 404;

/// There is such an item already.
pub const CONFLICT: u16 = 409;

} // verus!
