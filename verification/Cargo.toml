[package]
name = "bzip2_benchmarks"
version = "0.1.0"
edition = "2021"
publish = false

[dependencies]
libbz2-rs-sys = "0.2"
libc = "0.2"
serde = { version = "1", features = ["derive"] }
serde_json = "1"
tar = "0.4"
reqwest = { version = "0.12", default-features = false, features = ["blocking", "rustls-tls"] }
