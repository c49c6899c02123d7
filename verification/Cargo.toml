[package]
name = "utc_offset"
version = "0.1.0"
edition = "2021"
publish = false

[dependencies]
once_cell = "1"
parking_lot = "0.12"
thiserror = "1"
time = { version = "0.3", features = ["local-offset", "formatting", "parsing"] }

[dev-dependencies]
regex = "1"
