[package]
name = "candidate_backing"
version = "0.1.0"
edition = "2021"
publish = false

[dependencies]
bitvec = { version = "0.17.4", default-features = false, features = ["alloc"] }
derive_more = "0.99.9"
futures = { version = "0.3.5", features = ["thread-pool"] }
futures-timer = "3.0.2"
log = "0.4.8"
streamunordered = "0.5.1"
