[package]
name = "httpstun"
version = "0.1.0"
edition = "2021"
publish = false

[dependencies]
argon2 = "*"
actix-web = { version = "*", default-features = false, features = ["macros"] }
actix-ws = "*"
async-channel = "*"
clap = { version = "*", features = ["derive"] }
env_logger = "*"
futures-util = "*"
log = "*"
nix = { version = "*", features = ["process"] }
reqwest = { version = "*", default-features = false }
reqwest-websocket = "*"
rpassword = "*"
serde = { version = "*", features = ["derive"] }
signal-hook = "*"
tappers = { version = "*", features = ["tokio"] }
tokio = { version = "*", features = ["macros", "rt-multi-thread", "time", "sync"] }
toml = "*"
