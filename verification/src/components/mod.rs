//! The parts that block building is composed of.

pub mod execution_info;
pub mod payload_context;
pub mod payload_transactions;
pub mod tx_executor;
