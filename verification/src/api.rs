//! The client's side of the backend's HTTP interface.

pub mod client;
pub mod http;
pub mod json;
pub mod service;
