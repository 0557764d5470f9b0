//! The decisions of an Optimism block builder, apart from the node that it runs in.

pub mod actions;
pub mod batch_trace;
pub mod builder_flashblocks;
pub mod chain;
pub mod components;
pub mod errors;
pub mod laws;
pub mod payload_builder;
pub mod payload_builder_vanilla;
pub mod primitives;
pub mod publish;
pub mod subsequence;
pub mod tx_executor;
pub mod u256;
