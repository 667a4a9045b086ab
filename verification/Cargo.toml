[package]
name = "rust_kanban"
version = "0.1.0"
edition = "2021"
publish = false

[dependencies]
ngrammatic = "0.4"
log = "0.4"
serde = { version = "1", features = ["derive"] }
tokio = { version = "1", features = ["sync", "time"] }
ratatui = { version = "0.23", default-features = false }
textwrap = "0.16"
