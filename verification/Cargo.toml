[package]
name = "kongswap_adaptor"
version = "0.1.0"
edition = "2021"
publish = false

[dependencies]
candid = "0.10"
ic-cdk = "0.17"
ic-cdk-timers = "0.11"
ic-stable-structures = "0.6"
icrc-ledger-types = "0.1"
serde = { version = "1", features = ["derive"] }
serde_json = "1"
thiserror = "1"
ic-canister-log = "0.2"
lazy_static = "1"
