[package]
name = "crusty-hooks"
version = "0.1.0"
edition = "2021"
publish = false

[dependencies]
ci_info = "*"
clap = { version = "4", features = ["derive"] }
nias = "*"
serde = { version = "1", features = ["derive"] }
shlex = "1"
tokio = { version = "1", features = ["macros", "process", "rt-multi-thread"] }
toml = "*"
tracing = "0.1"
tracing-indicatif = "*"
tracing-subscriber = "0.3"
