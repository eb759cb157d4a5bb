[package]
name = "tzfile"
version = "0.1.0"
edition = "2021"
publish = false

[dependencies]
chrono = { version = "=0.4.45", default-features = false, features = ["std"] }

[dev-dependencies]
chrono-tz = "=0.10.4"
proptest = { version = "=1.12.0", default-features = false, features = ["std"] }
