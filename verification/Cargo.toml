[package]
name = "secure_exec"
version = "0.1.0"
edition = "2021"
publish = false

[dependencies]
macaddr = "1"
nix = { version = "*", features = ["mount", "reboot", "fs"] }
serde = { version = "1", features = ["derive"] }
serde_json = "1"
tokio = { version = "1", features = ["full"] }
tokio-vsock = "*"
tracing = "0.1"
tracing-subscriber = "0.3"
