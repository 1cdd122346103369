//! The verified core of a synchronous bridge between foreign callers and the
//! client of an event-sourced aggregate store.
//!
//! A foreign caller hands over byte buffers and gets byte buffers back. Between
//! the two, the bridge decides everything that does not need the network:
//!
//! - [`transit`] turns input buffers into text and structured values, and
//!   structured values into result buffers;
//! - [`config`] resolves a configuration document and the environment into the
//!   configuration of a connection;
//! - [`sort`] and [`options`] decode the options of an operation into its
//!   typed request;
//! - [`facade`] plans each operation in a fixed order of checks, and shapes the
//!   client's answer into the operation's result;
//! - [`error`] names the failures and their messages;
//! - [`buffer`] holds what is handed back across the boundary.
//!
//! The calls to the store itself, the runtime that drives them and the raw
//! pointers of the boundary are the embedding program's part. It hands the
//! functions here plain values and performs what they plan.

pub mod buffer;
pub mod config;
pub mod error;
pub mod facade;
pub mod json;
pub mod options;
pub mod sort;
pub mod text;
pub mod transit;
