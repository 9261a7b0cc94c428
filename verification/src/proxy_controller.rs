//! The parameters of the web API.
use vstd::prelude::*;

verus! {

/// The time range, in seconds since the epoch, of the health checks to list:
/// from `start_time` included to `end_time` excluded.
#[derive(Debug, Clone, Copy)]
pub struct ListHealthCheckParam {
    pub start_time: i64,
    pub end_time: i64,
}

} // verus!
