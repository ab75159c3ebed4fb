[package]
name = "cw-orch"
version = "0.1.0"
edition = "2021"
publish = false

[dependencies]
anyhow = "=1.0.104"
base64 = "=0.21.7"
clap = { version = "=4.6.7", features = ["derive"] }
color-eyre = "=0.6.5"
cosmrs = { version = "=0.15.0", features = ["cosmwasm", "grpc"] }
cosmwasm-std = { version = "=1.5.11", features = ["cosmwasm_1_4"] }
cw-multi-test = { version = "=0.20.1", features = ["cosmwasm_1_4"] }
cw-utils = "=1.0.3"
futures-util = "=0.3.34"
inquire = { version = "=0.6.2", features = ["editor"] }
keyring = { version = "=2.3.3", default-features = false }
log = "=0.4.34"
prost = "=0.12.6"
serde = { version = "=1.0.229", features = ["derive"] }
serde_json = "=1.0.154"
tokio = { version = "=1.54.1", features = ["rt", "time"] }
tonic = "=0.10.2"
