[package]
name = "hcs_12ss59t"
version = "0.1.0"
edition = "2021"

[dependencies]
embedded-hal = "1"
embedded-hal-async = "1"

[dev-dependencies]
embedded-hal-mock = { version = "*", default-features = false, features = ["eh1"] }
