[package]
name = "lowmain"
version = "0.1.0"
edition = "2021"
publish = false

[dependencies]
agcli = "=0.8.1"
neo4rs = "=0.8.0"
serde_json = "=1.0.154"
tokio = { version = "=1.54.1", features = ["macros", "rt-multi-thread"] }

[dev-dependencies]
chrono = "=0.4.45"
