[package]
name = "openstack_tui"
version = "0.1.0"
edition = "2021"
publish = false

[dependencies]
async-trait = "*"
chrono = "*"
crossterm = "*"
derive_builder = "*"
eyre = "*"
openstack_sdk = "*"
openstack_types = "*"
ratatui = { version = "*", default-features = false, features = ["crossterm"] }
secrecy = "*"
serde = { version = "*", features = ["derive"] }
serde_json = "*"
tokio = { version = "*", features = ["sync", "rt", "macros"] }
tracing = "*"
