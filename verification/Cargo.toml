[package]
name = "node_health"
version = "0.1.0"
edition = "2021"
publish = false

[dependencies]
clap = { version = "=4.6.7", default-features = false, features = ["derive", "std", "help", "usage", "error-context"] }
kaspa-rpc-core = "=0.13.4"
kaspa-wrpc-client = "=0.13.4"
tokio = { version = "=1.54.1", default-features = false, features = ["macros", "rt-multi-thread"] }
workflow-rpc = "=0.10.3"
