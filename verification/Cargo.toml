[package]
name = "pumpkin_core"
version = "0.1.0"
edition = "2021"
publish = false

[dependencies]
md5 = "*"
bytes = "*"
rand = "*"
uuid = { version = "*", features = ["v3"] }
serde = { version = "*", features = ["derive"] }
tokio = { version = "*", features = ["io-util"] }
async-compression = { version = "*", features = ["tokio", "zlib"] }
async-trait = "*"
proc-macro2 = "*"
quote = "*"
