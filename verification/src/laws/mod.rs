//! What the operations of the library are for, stated of their inputs and results. Each law speaks
//! of a call, or of several, whose results are whatever the contracts allow.

pub mod batches;
pub mod builder_tx;
pub mod builds;
pub mod context;
pub mod payloads;
pub mod receipts;
pub mod runs;
pub mod views;
