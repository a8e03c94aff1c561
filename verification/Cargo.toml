[package]
name = "podtest"
version = "0.1.0"
edition = "2021"
publish = false

[dependencies]
ansi_term = "0.12"
anyhow = "1"
clap = { version = "4", features = ["derive"] }
reqwest = { version = "0.12", default-features = false }
sysinfo = "0.30"
tokio = { version = "1", features = ["macros", "rt-multi-thread", "process", "time", "io-util"] }
