[package]
name = "lnnode"
version = "0.1.0"
edition = "2021"
publish = false

[dependencies]
lightning = "=0.0.106"
lightning-invoice = "=0.14.0"
lightning-net-tokio = "=0.0.106"
lightning-persister = "=0.0.106"
lightning-background-processor = "=0.0.106"
bitcoin = "=0.27.1"
actix-web = { version = "=4.18.1", default-features = false }
tokio = { version = "=1.54.1", features = ["io-util", "macros", "rt", "rt-multi-thread", "sync", "net", "time"] }
serde = { version = "=1.0.229", features = ["derive"] }
reqwest = { version = "=0.11.27", default-features = false, features = ["json"] }
