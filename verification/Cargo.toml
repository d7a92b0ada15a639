[package]
name = "pacquet-install"
version = "0.1.0"
edition = "2021"
publish = false

[dependencies]
clap = { version = "4", features = ["derive"] }
derive_more = { version = "2", features = ["display", "error"] }
miette = { version = "7", features = ["fancy"] }
rayon = "1"
tokio = { version = "1", features = ["rt", "rt-multi-thread", "sync"] }
tracing = "0.1"
