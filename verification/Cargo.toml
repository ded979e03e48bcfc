[package]
name = "rua_gen"
version = "0.1.0"
edition = "2021"
publish = false

[dependencies]
syn = { version = "=2.0.119", features = ["full"] }
proc-macro2 = { version = "=1.0.107", features = ["span-locations"] }
toml = "=1.1.7"
serde = { version = "=1.0.229", features = ["derive"] }
