//! Staging and resolution of ledger transaction batches.
//!
//! A batch of create, update and delete requests is checked against a
//! snapshot of the ledger, turned into double-entry records and parked under
//! a one-time key until the caller commits it.

pub mod amount;
pub mod bulk;
pub mod calendar;
pub mod classify;
pub mod create;
pub mod error;
pub mod ident;
pub mod laws;
pub mod listing;
pub mod lookup;
pub mod model;
pub mod order;
pub mod params;
pub mod patch;
pub mod resolve;
pub mod response;
pub mod store;
pub mod tags;
pub mod text;
pub mod workflow;
