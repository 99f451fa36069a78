[package]
name = "fskit_rs"
version = "0.1.0"
edition = "2021"
publish = false

[dependencies]
prost = "0.13"
regex = "1"
libc = "0.2"
bytes = "1"
tokio = { version = "1", features = ["rt-multi-thread", "macros", "net", "io-util", "sync", "signal", "time"] }
log = "0.4"
thiserror = "2"
async-trait = "0.1"
futures = "0.3"
