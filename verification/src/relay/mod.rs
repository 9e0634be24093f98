//! Relay-side logic: error mapping, rate limiting, credentials, request
//! checks and the WebSocket gateway's routing.

pub mod accounts;
pub mod api;
pub mod auth;
pub mod config;
pub mod crypto;
pub mod db;
pub mod error;
pub mod gateway;
pub mod health;
pub mod ratelimit;
