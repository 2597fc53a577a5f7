//! The node's data records, its request/response interface and its
//! streaming interface.

pub mod models;
pub mod rest_client;
pub mod websocket;
