//! Monitoring of active wallet addresses: the activation consumer's registry
//! decisions, the explorer client's response classification and the batch
//! and retry engine of the poll scheduler.

pub mod amount;
pub mod api;
pub mod client;
pub mod config;
pub mod consumer;
pub mod cycle;
pub mod ledger;
pub mod message;
pub mod monitor;
pub mod registry;
pub mod request;
pub mod scheduler;
pub mod termination;
pub mod text;
pub mod wallet;
