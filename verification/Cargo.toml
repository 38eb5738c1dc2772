[package]
name = "solipath"
version = "0.1.0"
edition = "2021"
publish = false

[dependencies]
anyhow = "1"
bzip2-rs = "*"
directories = "*"
flate2 = "1"
futures = "0.3"
glob = "0.3"
lzma-rs = "*"
mailparse = "*"
reqwest = { version = "0.12", default-features = false, features = ["rustls-tls"] }
serde = { version = "1", features = ["derive"] }
serde_json = "1"
sevenz-rust = "*"
tar = "0.4"
tempfile = "3"
tokio = { version = "1", features = ["fs", "io-util", "macros", "rt-multi-thread", "time"] }
zip = { version = "*", default-features = false, features = ["deflate"] }
