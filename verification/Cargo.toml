[package]
name = "tokio_sky"
version = "0.1.0"
edition = "2021"
publish = false

[dependencies]
indexmap = "=2.14.2"
hashring = "=0.3.6"
tokio = { version = "=1.54.1", features = ["rt-multi-thread", "sync", "time", "macros"] }
async-trait = "=0.1.92"
futures = "=0.3.34"
log = "=0.4.35"
pulsar = { version = "=6.9.1", default-features = false, features = ["tokio-runtime", "protobuf-src"] }
rdkafka = { version = "=0.39.0", default-features = false, features = ["tokio"] }
