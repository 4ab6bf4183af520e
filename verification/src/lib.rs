//! Orchestration of batched and event-triggered ledger operations.
//!
//! Three jobs run against a ledger node: asking for the balances of a batch
//! of accounts, making a batch of value transfers, and making one fixed
//! transfer for every event of a live ledger stream. This crate holds what
//! those jobs decide and compute; talking to the node and to the stream, and
//! running units of work side by side, is left to the caller.
//!
//! - [`join`] files the outcomes of concurrently running units under the
//!   position of their input, so that results keep the order of the inputs.
//! - [`balances`] assembles the results of a batch of balance queries.
//! - [`transfer`] is the state machine of one transfer, and [`batch`] plans
//!   and assembles a batch of them.
//! - [`dispatcher`] is the state machine of the stream subscription.
//! - [`report`] and [`text`] render results as lines of text.
//! - [`ledger`] is the boundary to the ledger's client library.

pub mod balances;
pub mod batch;
pub mod dispatcher;
pub mod join;
pub mod ledger;
pub mod report;
pub mod text;
pub mod transfer;
