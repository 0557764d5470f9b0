[package]
name = "op-rbuilder"
version = "0.1.0"
edition = "2021"

[dependencies]
alloy-consensus = { version = "=0.11.1", features = ["k256"] }
alloy-eips = "=0.11.1"
alloy-primitives = "=0.8.26"
alloy-rpc-types-engine = "=0.11.1"
alloy-rpc-types-eth = "=0.11.1"
op-alloy-consensus = "=0.10.9"
op-alloy-rpc-types-engine = "=0.10.9"
revm = { version = "=19.7.0", default-features = false, features = ["std", "optimism"] }
serde = "=1.0.218"
serde_json = "=1.0.138"
futures-util = "=0.3.31"
tokio = { version = "=1.43.0", features = ["full"] }
tokio-tungstenite = "=0.26.2"
tokio-util = "=0.7.13"
tracing = "=0.1.41"
thiserror = "=2.0.11"
