[package]
name = "soar-dl"
version = "0.1.0"
edition = "2021"
publish = false

[dependencies]
blake3 = "1"
bzip2 = "*"
clap = { version = "4", features = ["derive"] }
compak = "*"
fast-glob = "*"
flate2 = "1"
futures = "0.3"
indicatif = "*"
regex = "1"
reqwest = { version = "0.12", default-features = false, features = ["json", "stream", "rustls-tls"] }
serde = { version = "1", features = ["derive"] }
serde_json = "1"
tar = "*"
tokio = { version = "1", features = ["fs", "io-std", "io-util", "macros", "rt-multi-thread", "sync", "time"] }
url = "2"
xz2 = "*"
zip = "*"
zstd = "*"
