[package]
name = "omu"
version = "0.1.0"
edition = "2021"
publish = false

[dependencies]
anyhow = "1"
bitflags = "2"
dashmap = "*"
futures-util = { version = "0.3", features = ["sink"] }
ijson = "*"
itoa = "1"
lexical = "*"
proc-macro2 = "1"
quote = "1"
reqwest = { version = "*", default-features = false, features = ["json"] }
serde = { version = "1", features = ["derive"] }
serde_json = "1"
serde_repr = "*"
syn = { version = "2", features = ["full"] }
thiserror = "*"
tokio = { version = "1", features = ["rt-multi-thread", "macros", "net", "sync", "time"] }
tokio-tungstenite = "*"
