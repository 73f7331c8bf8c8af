[package]
name = "gen4_smogon_tracker"
version = "0.1.0"
edition = "2021"
publish = false

[dependencies]
rand = "0.8"
rusqlite = { version = "0.29", features = ["bundled"] }
tokio = { version = "1", features = ["rt-multi-thread"] }
futures = { version = "0.3", default-features = false, features = ["std"] }
dioxus = "0.3"
dioxus-router = "0.3"
image = { version = "0.24", default-features = false, features = ["ico"] }
