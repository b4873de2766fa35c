//! What happens around every request: authorization, logging, and waiting out rate limits.
pub mod authorization;
pub mod logging;
pub mod rate_limit;
