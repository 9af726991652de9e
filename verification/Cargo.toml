[package]
name = "scmp_probe"
version = "0.1.0"
edition = "2021"
publish = false

[dependencies]
bytes = "=1.12.1"
clap = { version = "=4.6.7", features = ["derive"] }
etherparse = "=0.21.0"
pnet = "=0.35.0"
regex = "=1.13.1"
scion-proto = "=0.5.2"
scion-protobuf = "=0.5.2"
tokio = { version = "=1.54.1", features = ["rt-multi-thread", "macros"] }
tonic = { version = "=0.14.6", default-features = false, features = ["transport"] }
