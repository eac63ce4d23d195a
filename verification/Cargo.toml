[package]
name = "ccache-ghac-adapter"
version = "0.1.0"
edition = "2021"
publish = false

[dependencies]
axum = "0.8"
clap = { version = "4", features = ["derive"] }
opendal = { version = "0.54", features = ["services-ghac"] }
reqwest = { version = "0.12", default-features = false }
tokio = { version = "1", features = ["macros", "net", "rt-multi-thread"] }
