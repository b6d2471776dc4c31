//! A cash ledger: an append-only log of monetary transactions with a running
//! cash balance, and the request handling of the service built on it.
//!
//! Identifiers are UUIDs held as `u128`, instants are held as seconds and
//! nanoseconds since the Unix epoch; the `uuid` and `chrono` crates produce
//! and read them behind a handful of trusted functions.

pub mod cash;
pub mod clock;
pub mod ident;
pub mod lemmas;
pub mod service;

pub use clock::Timestamp;
pub use cash::{Transaction, TransactionKind, TransactionLog, TransactionView};
pub use service::{CashService, ErrorClass, NewTransaction, ServiceError};
