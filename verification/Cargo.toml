[package]
name = "andromeda_lockdrop"
version = "0.1.0"
edition = "2021"
publish = false

[dependencies]
cosmwasm-std = "1.5"
semver = "1"
cw2 = "1.1"
cw20 = "1.1"
cw-asset = "3.0"
cw-utils = "1.0"
cw-storage-plus = "1.2"
serde = { version = "1", features = ["derive"] }
thiserror = "1"
