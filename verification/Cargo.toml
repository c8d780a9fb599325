[package]
name = "swayboard"
version = "0.1.0"
edition = "2021"
publish = false

[dependencies]
anyhow = "*"
clap = { version = "*", features = ["derive"] }
config = "*"
dirs = "*"
futures-util = "*"
serde = { version = "*", features = ["derive"] }
swayipc-async = "*"
swayipc-types = "*"
tokio = { version = "*", features = ["macros", "rt-multi-thread"] }
tracing = "*"
tracing-appender = "*"
tracing-subscriber = { version = "*", features = ["env-filter"] }
