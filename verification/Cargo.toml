[package]
name = "rgpt"
version = "0.1.0"
edition = "2021"
publish = false

[dependencies]
serde_json = "1"
markdown = "=1.0.0"
serde = { version = "1", features = ["derive"] }
reqwest = { version = "*", default-features = false, features = ["json", "stream"] }
tokio = { version = "*", features = ["rt-multi-thread", "macros", "sync"] }
futures = { version = "*", default-features = false, features = ["std"] }
eventsource-stream = "*"
crossterm = { version = "*", features = ["event-stream"] }
pulldown-cmark = { version = "*", default-features = false }
pulldown-cmark-mdcat = { version = "*", default-features = false }
syntect = { version = "*", default-features = false, features = ["default-fancy"] }
