[package]
name = "modem_supervisor"
version = "0.1.0"
edition = "2021"
publish = false

[dependencies]
anyhow = "1"
clap = { version = "4", features = ["derive"] }
log = "0.4"
simplelog = "*"
tokio = { version = "1", features = ["macros", "rt-multi-thread", "time"] }
zbus = { version = "*", default-features = false, features = ["tokio"] }
