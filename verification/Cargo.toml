[package]
name = "hydrus_utils"
version = "0.1.0"
edition = "2021"
publish = false

[dependencies]
clap = { version = "*", features = ["derive"] }
color-eyre = "*"
config = "*"
directories = "*"
egg-mode = "*"
fakeit = "*"
futures = "*"
hydrus-api = "*"
lazy-regex = "*"
log = "*"
pixiv-rs = "*"
reqwest = { version = "*", features = ["json"] }
rustnao = "*"
serde = { version = "*", features = ["derive"] }
serde_json = "*"
tempdir = "*"
thiserror = "*"
tokio = { version = "*", features = ["macros", "rt", "fs", "io-util", "time"] }
tracing = "*"
tracing-subscriber = { version = "*", features = ["env-filter", "fmt"] }
