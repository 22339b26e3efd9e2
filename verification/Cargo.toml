[package]
name = "diesel_rows"
version = "0.1.0"
edition = "2021"
publish = false

[dependencies]
libsqlite3-sys = { version = "*", features = ["bundled"] }
proc-macro2 = "1.0"
quote = "1.0"
serde = "1.0"
syn = { version = "1.0", features = ["full"] }
