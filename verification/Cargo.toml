[package]
name = "chronoban"
version = "0.1.0"
edition = "2021"
publish = false

[dependencies]
anyhow = "1"
chrono = "0.4"
clap = { version = "4", features = ["derive"] }
tokio = { version = "1", features = ["fs", "macros", "rt", "rt-multi-thread"] }
