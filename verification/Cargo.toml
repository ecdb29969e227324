[package]
name = "workspace_launcher"
version = "0.1.0"
edition = "2021"
publish = false

[dependencies]
clap = { version = "=4.6.7", features = ["derive"] }
tokio = { version = "=1.53.2", features = ["io-std", "io-util", "macros", "process", "rt-multi-thread", "signal"] }
which = "=8.0.6"
