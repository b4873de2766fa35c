//! One retry after a rate limit: a request answered `429 Too Many Requests` with a
//! `Retry-After` header of some seconds is sent once more after that delay.
use vstd::prelude::*;
use crate::beyond_identity::api::common::middleware::rate_limit::{
    retry_after_secs, TOO_MANY_REQUESTS,
};
use crate::text::parse_u64;

verus! {

/// Sends a request once more after the delay that a `429` answer names.
#[derive(Clone, Copy, Debug)]
pub struct RespectRateLimitMiddleware;

impl RespectRateLimitMiddleware {
    /// The delay before sending the request once more: the seconds of the `Retry-After`
    /// header text `retry_after` of a `429` answer; `None` (hand the answer back) otherwise.
    pub fn retry_delay(&self, status: u16, retry_after: Option<&str>) -> (r: Option<u64>)
        ensures
            r matches Some(d) ==> status == TOO_MANY_REQUESTS && retry_after_secs(
                match retry_after {
                    Some(h) => Some(h@),
                    None => None,
                },
            ) == Some(d as nat),
            r is None ==> status != TOO_MANY_REQUESTS || retry_after_secs(
                match retry_after {
                    Some(h) => Some(h@),
                    None => None,
                },
            ) is None,
    {
        if status != TOO_MANY_REQUESTS {
            return None;
        }
        match retry_after {
            Some(h) => parse_u64(h),
            None => None,
        }
    }
}

} // verus!
