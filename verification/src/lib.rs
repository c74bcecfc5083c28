//! A typed client library for the Roblox web API.
//!
//! The verified core is the authenticated request pipeline: session state
//! with a concurrently shared anti-forgery token, the login handshake that
//! refreshes that token, the request executor with its single bounded
//! reauthentication retry, and the classifier that turns heterogeneous
//! error response bodies into a structured error. Network transport is
//! driven by the caller; the decisions live here.

pub mod body;
pub mod client;
pub mod error;
pub mod json;
pub mod login;
pub mod request;
pub mod routes;
pub mod structs;
pub mod text;
pub mod transport;
