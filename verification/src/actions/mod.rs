//! The actions that strategies are composed of.

pub mod builder_tx;
pub mod payload;
pub mod pre_block;
pub mod trace;
pub mod tx_executor;
