[package]
name = "timeline_core"
version = "0.1.0"
edition = "2021"
publish = false

[dependencies]
temporal_rs = "*"
slotmap = "1"
serde = { version = "1", features = ["derive"] }
serde_json = "1"
clap = { version = "4", features = ["derive"] }
shlex = "1"
anyhow = "1"
thiserror = "2"
