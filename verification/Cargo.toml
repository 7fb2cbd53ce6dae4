[package]
name = "onion_sessions"
version = "0.1.0"
edition = "2021"
publish = false

[dependencies]
sha3 = "0.10"
data-encoding = "2"
ed25519-dalek = { version = "2", features = ["rand_core"] }
rand_core = { version = "0.6", features = ["getrandom"] }
tokio = { version = "1", features = ["rt", "rt-multi-thread", "time", "sync", "io-util", "macros"] }
tokio-util = "0.7"
rustls = { version = "0.23", default-features = false, features = ["ring", "logging", "std", "tls12"] }
tokio-rustls = { version = "0.26", default-features = false, features = ["ring", "logging", "tls12"] }
webpki-roots = "0.26"
futures-core = "0.3"
futures-util = "0.3"
