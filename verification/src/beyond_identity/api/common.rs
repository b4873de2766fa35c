//! What every API resource shares: URL building, filters, request middlewares and the API
//! client's request logic.
pub mod api_client;
pub mod call;
pub mod command;
pub mod filter;
pub mod middleware;
pub mod middlewares;
pub mod serialize;
pub mod url;
