[package]
name = "quickcheck_async"
version = "0.1.0"
edition = "2021"
publish = false

[dependencies]
proc-macro2 = "1"
quote = "1"
syn = { version = "1", features = ["full"] }

[dev-dependencies]
futures = "0.3"
quickcheck = "1"
