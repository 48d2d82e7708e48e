[package]
name = "sequencer_origin"
version = "0.1.0"
edition = "2021"
publish = false

[dependencies]
alloy-consensus = "=1.8.3"
alloy-primitives = "=1.7.3"
alloy-provider = { version = "=1.8.3", default-features = false }
alloy-transport = "=1.8.3"
async-trait = "0.1"
serde_json = { version = "1", features = ["raw_value"] }
thiserror = "2"
tokio = { version = "1", features = ["sync", "time"] }
tracing = "0.1"
url = "2"
