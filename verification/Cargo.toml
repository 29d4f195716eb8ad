[package]
name = "trace_archiver"
version = "0.1.0"
edition = "2021"
publish = false

[dependencies]
rand = "0.8"
flatbuffers = "*"
chrono = "0.4"
dotenv = "0.15"
anyhow = "1"
serde = { version = "1", features = ["derive"] }
serde_json = "1"
clap = { version = "4", features = ["derive"] }
linregress = "*"
