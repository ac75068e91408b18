[package]
name = "ln_main"
version = "0.1.0"
edition = "2021"
publish = false

[dependencies]
anyhow = "1"
crossterm = { version = "0.27", features = ["event-stream"] }
futures = "0.3"
lemmy_api_common = { version = "0.19", default-features = false }
ratatui = "0.26"
ratatui-image = "1.0"
reqwest = { version = "0.12", default-features = false, features = ["json", "rustls-tls"] }
tokio = { version = "1", features = ["macros", "rt-multi-thread", "sync"] }
