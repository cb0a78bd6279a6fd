[package]
name = "gamels"
version = "0.1.0"
edition = "2021"
publish = false

[dependencies]
chrono = "0.4"
clap = { version = "4", features = ["derive"] }
colored = "2"
directories = "5"
file-mode = "0.1"
humansize = "2"
reqwest = "0.11"
serde_json = "1"
thiserror = "1"
tokio = { version = "1", features = ["macros", "rt-multi-thread"] }
users = "0.11"
