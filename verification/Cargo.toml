[package]
name = "togglcli"
version = "0.1.0"
edition = "2021"
publish = false

[dependencies]
colored = "*"
keyring = "*"
structopt = "0.3"
tokio = { version = "1", features = ["macros", "rt-multi-thread"] }
reqwest = { version = "*", default-features = false, features = ["json"] }
serde = { version = "*", features = ["derive"] }
serde_json = "*"
