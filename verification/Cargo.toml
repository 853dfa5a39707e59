[package]
name = "muzanci_cli"
version = "0.1.0"
edition = "2021"
publish = false

[dependencies]
anyhow = "1"
bytes = "1"
clap = { version = "4", features = ["derive"] }
crossterm = "=0.29.0"
git2 = { version = "=0.21.0", default-features = false }
hex = "=0.4.3"
http = "=1.5.0"
http-body-util = "0.1"
hyper = { version = "1", features = ["client", "http1"] }
hyper-util = { version = "0.1", features = ["tokio"] }
reqwest = { version = "=0.13.5", features = ["json"] }
rpassword = "=7.5.4"
russh = "=0.65.0"
serde = { version = "1", features = ["derive"] }
sha2 = "=0.11.1"
tempfile = "3"
thiserror = "2"
tokio = { version = "1", features = ["full"] }
tokio-util = "0.7"
toml = "1"
tracing = "0.1"
tracing-error = "0.2"
uuid = { version = "=1.29.0", features = ["serde"] }
