//! Logging of every request and of its answer.
use vstd::prelude::*;

verus! {

/// Logs each request (method, URL and body) and the status of its answer.
#[derive(Clone, Copy, Debug)]
pub struct LoggingMiddleware;

} // verus!
