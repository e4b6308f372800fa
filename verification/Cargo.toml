[package]
name = "nash_protocol"
version = "0.1.0"
edition = "2021"
publish = false

[dependencies]
nash-mpc = "=1.2.4"
futures = "=0.3.34"
async-trait = "=0.1.92"
serde = { version = "=1.0.229", features = ["derive"] }
serde_json = "=1.0.154"
graphql_client = "=0.16.0"
thiserror = "=1.0.69"
chrono = "=0.4.45"
sha2 = "=0.9.9"
sha3 = "0.9"
ripemd160 = "0.9"
