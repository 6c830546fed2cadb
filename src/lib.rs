//! An inbound-request gateway: routes HTTP-shaped requests that arrive as
//! transport messages, serves static assets, and forwards audio uploads to a
//! downstream worker.

pub mod address;
pub mod json;
pub mod response;
pub mod routes;
pub mod upload;
pub mod gateway;
pub mod laws;
