[package]
name = "pet_participant"
version = "0.1.0"
edition = "2021"
publish = false

[dependencies]
sodiumoxide = "0.2"
async-trait = "0.1"
serde = { version = "1", features = ["derive"] }
thiserror = "1"
tokio = { version = "1", features = ["time"] }
tracing = "0.1"
