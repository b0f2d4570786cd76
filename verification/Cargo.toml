[package]
name = "live_comments"
version = "0.1.0"
edition = "2021"
publish = false

[dependencies]
reqwest = { version = "=0.13.5", default-features = false, features = ["json", "form"] }
tokio = { version = "=1.53.2", features = ["rt-multi-thread", "macros", "sync", "time"] }
warp = { version = "=0.4.3", features = ["server"] }
serde = { version = "=1.0.229", features = ["derive"] }
serde_json = "=1.0.151"
open = "=5.4.4"
