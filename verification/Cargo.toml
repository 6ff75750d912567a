[package]
name = "connector_core"
version = "0.1.0"
edition = "2021"
publish = false

[dependencies]
open = "*"
serde = { version = "*", features = ["derive"] }
sqlformat = "*"
sqlparser = "*"
