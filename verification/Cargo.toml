[package]
name = "reth_node_logic"
version = "0.1.0"
edition = "2021"
publish = false

[dependencies]
alloy-hardforks = "*"
alloy-primitives = { version = "=1.7.3", default-features = false, features = ["std"] }
clap = { version = "=4.6.7", features = ["derive"] }
parking_lot = "=0.12.5"
