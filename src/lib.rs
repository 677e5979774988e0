//! The core of an account-management service.
//!
//! `request` routes a raw request and takes its path identifier and body
//! apart; `account` holds the account records and credential derivation;
//! `handlers` runs each operation as a step function that asks a record store
//! and answers with a status and a body; `store` models that record store;
//! `laws` states what holds when requests are served against it.

pub mod account;
pub mod handlers;
pub mod laws;
pub mod request;
pub mod store;
