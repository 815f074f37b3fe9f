[package]
name = "beatbeatlarge"
version = "0.1.0"
edition = "2021"
publish = false

[dependencies]
simdjson-rust = "=0.3.0-alpha.2"
chrono = "*"
zstd = "*"
flate2 = "*"
glob = "*"
rayon = "*"
mimalloc = "*"
redis = { version = "*", features = ["streams"] }

[dev-dependencies]
regex = "*"
