[package]
name = "gtnkr"
version = "0.1.0"
edition = "2021"
publish = false

[dependencies]
chrono = "=0.4.45"
which = "=8.0.6"
tokio = { version = "=1.53.2", features = ["macros", "rt-multi-thread", "process", "io-util", "fs", "time"] }
nix = { version = "=0.31.3", features = ["user", "signal"] }
clap = { version = "=4.6.7", features = ["derive", "env"] }
ron = "=0.12.2"
serde = { version = "=1.0.229", features = ["derive"] }
tracing = "=0.1.44"
tracing-subscriber = "=0.3.23"
color-eyre = "=0.6.5"
