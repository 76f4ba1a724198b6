[package]
name = "quic_echo"
version = "0.1.0"
edition = "2021"
publish = false

[dependencies]
clap = { version = "=4.6.7", features = ["derive"] }
quinn = "=0.11.12"
rustls = { version = "=0.23.46", default-features = false, features = ["ring", "std", "logging", "tls12"] }
rustls-pemfile = "=2.2.0"
tokio = { version = "=1.54.1", features = ["full"] }

[dev-dependencies]
rcgen = "0.14"
