[package]
name = "rumpus_ce"
version = "0.1.0"
edition = "2021"
publish = false

[dependencies]
restson = "1"
serde = "1"
serde_json = "1"
thiserror = "1"
tokio = { version = "1", features = ["macros", "rt-multi-thread"] }
