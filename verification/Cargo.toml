[package]
name = "distributed-channel"
version = "0.1.0"
edition = "2021"
publish = false

[dependencies]
anyhow = "=1.0.104"
async-channel = "=2.5.0"
crossbeam-channel = "=0.5.17"
env_logger = { version = "=0.11.11", default-features = false }
futures = "=0.3.34"
if-addrs = "=0.15.0"
iroh = { version = "=1.4.1", default-features = false, features = ["tls-ring"] }
log = "=0.4.35"
postcard = { version = "=1.1.3", features = ["alloc"] }
serde = { version = "=1.0.229", features = ["derive"] }
swarm-discovery = "=0.6.5"
tokio = { version = "=1.54.1", features = ["rt-multi-thread", "macros", "sync", "net", "io-util", "time"] }
