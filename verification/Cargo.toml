[package]
name = "tabletdrivercleanup"
version = "0.1.0"
edition = "2021"
publish = false

[dependencies]
regex = "*"
serde = { version = "*", features = ["derive"] }
serde_json = "*"
tokio = { version = "*", features = ["rt-multi-thread", "macros", "time", "sync"] }
tokio-util = "*"
crossterm = "*"
clap = "*"
uuid = { version = "*", features = ["serde"] }
reqwest = { version = "*", default-features = false, features = ["rustls-tls"] }
winreg = "*"
