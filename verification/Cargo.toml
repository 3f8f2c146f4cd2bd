[package]
name = "joker"
version = "0.1.0"
edition = "2021"
publish = false

[dependencies]
chrono = "*"
clap = { version = "*", features = ["derive"] }
colog = "*"
cookie = "*"
core_affinity = "*"
log = "*"
rand = "*"
reqwest = { version = "*", features = ["gzip", "brotli", "deflate", "zstd", "json"] }
serde_json = "*"
sha2 = "*"
tokio = { version = "*", features = ["rt-multi-thread", "macros", "time"] }
