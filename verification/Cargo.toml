[package]
name = "node_graph"
version = "0.1.0"
edition = "2021"
publish = false

[dependencies]
axiom = "=0.2.1"
log = "=0.4.34"
serde = { version = "=1.0.229", features = ["derive"] }
uuid = { version = "=0.7.4", features = ["serde"] }
