[package]
name = "loac"
version = "0.4.0"
edition = "2021"
publish = false

[dependencies]
slotmap = "=1.1.1"
crossbeam-queue = "=0.3.14"
tokio = { version = "1", features = ["sync", "macros", "rt"] }
futures-util = "0.3"
pin-project-lite = "0.2"
