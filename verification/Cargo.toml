[package]
name = "web3-rpc-pool"
version = "0.1.0"
edition = "2021"
publish = false

[dependencies]
chrono = { version = "0.4", default-features = false, features = ["std", "now"] }
clap = { version = "4", default-features = false, features = ["derive", "std", "help", "usage", "error-context"] }
dashmap = "6"
futures-util = { version = "0.3", default-features = false, features = ["std"] }
parking_lot = "0.12"
reqwest = { version = "0.12", default-features = false, features = ["json"] }
serde = { version = "1", features = ["derive"] }
serde_json = "1"
thiserror = "2"
tokio = { version = "1", default-features = false, features = ["macros", "rt-multi-thread", "sync", "time"] }
tokio-util = { version = "0.7", default-features = false }
tracing = { version = "0.1", default-features = false, features = ["std", "attributes"] }
url = "2"
