[package]
name = "rpc_shapes"
version = "0.1.0"
edition = "2021"
publish = false

[dependencies]
async-trait = "0.1"
futures = "0.3"
tonic = { version = "*", default-features = false }
tower = { version = "*", default-features = false }
