[package]
name = "n8n_supervisor"
version = "0.1.0"
edition = "2021"
publish = false

[dependencies]
anyhow = "1"
base64 = "0.21"
dirs = "5"
keyring = "2"
portpicker = "0.1"
rand = "0.8"
reqwest = { version = "0.11", default-features = false }
tokio = { version = "1", features = ["macros", "rt-multi-thread", "process", "sync", "time", "io-util"] }
which = "4"
