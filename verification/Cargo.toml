[package]
name = "safer_ring"
version = "0.1.0"
edition = "2021"
publish = false

[dependencies]
num_cpus = "1"
libc = "0.2"
thiserror = "*"
io-uring = "*"
tokio = { version = "1", features = ["io-util"] }

[dev-dependencies]
static_assertions = "1"
