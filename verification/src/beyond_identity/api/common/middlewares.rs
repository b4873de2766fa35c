//! The first request middlewares: logging, and one retry after a rate limit.
pub mod logging;
pub mod rate_limit;
