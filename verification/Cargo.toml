[package]
name = "mubert_cli"
version = "0.1.0"
edition = "2021"
publish = false

[dependencies]
clap = { version = "4", default-features = false, features = ["derive", "std", "help", "usage"] }
reqwest = { version = "0.12", default-features = false, features = ["json"] }
serde = { version = "1", features = ["derive"] }
serde_json = "1"
subxt-signer = { version = "*", default-features = false, features = ["sr25519", "std"] }
tokio = { version = "1", features = ["macros", "rt", "time"] }
