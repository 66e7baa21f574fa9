[package]
name = "dcontainer"
version = "0.1.0"
edition = "2021"
publish = false

[dependencies]
ipnetwork = "0.20"
serde = { version = "1", features = ["derive"] }
serde_json = "1"
libc = "0.2"
rtnetlink = "0.14"
tokio = { version = "1", features = ["rt-multi-thread", "macros"] }
futures = "0.3"
dotenvy = "0.15"
flate2 = "1"
tar = "0.4"
