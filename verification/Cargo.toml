[package]
name = "organix"
version = "0.1.0"
edition = "2021"
publish = false

[dependencies]
async-trait = "0.1"
futures-util = "0.3"
proc-macro2 = "1.0"
proc-macro-error = "1.0"
quote = "1.0"
syn = { version = "1.0", features = ["full"] }
thiserror = "1.0"
tokio = { version = "0.2", features = ["rt-core", "rt-threaded", "io-driver", "time", "sync", "macros"] }
tracing = "0.1"
tracing-futures = "0.2"
