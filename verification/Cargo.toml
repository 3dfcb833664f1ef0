[package]
name = "minimal"
version = "0.4.0"
edition = "2021"
publish = false

[dependencies]
anyhow = "1"
clap = { version = "4", default-features = false, features = ["std", "derive", "help", "usage", "error-context"] }
crossterm = { version = "*", default-features = false, features = ["events", "event-stream"] }
futures-lite = { version = "*", default-features = false, features = ["std"] }
hashbag = "*"
iroh = "*"
iroh-gossip = "*"
rand = "0.9"
serde = { version = "1", features = ["derive"] }
serde_json = "1"
tokio = { version = "1", features = ["rt-multi-thread", "macros", "sync", "time"] }
