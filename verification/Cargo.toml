[package]
name = "wg"
version = "0.1.0"
edition = "2021"
publish = false

[dependencies]
event-listener = "5"
parking_lot = "0.12"
triomphe = "0.1"
pin-project-lite = "0.2"
tokio = { version = "1", default-features = false, features = ["sync", "rt"] }
