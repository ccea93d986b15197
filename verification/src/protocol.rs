//! The statuses with which the management API accepts each request.

use vstd::prelude::*;

verus! {

/// The status with which the API answers a successful listing, status query
/// or download.
pub const OK_STATUS: u16 = 200;

/// The status with which the API acknowledges job creation.
pub const CREATED_STATUS: u16 = 201;

} // verus!
