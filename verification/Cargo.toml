[package]
name = "export_bridge"
version = "0.1.0"
edition = "2021"
publish = false

[dependencies]
hyper = { version = "=0.14.32", default-features = false, features = ["stream"] }
surrealdb = { version = "=1.0.0-beta.8", default-features = false, features = ["kv-mem"] }
tokio = { version = "=1.54.1", default-features = false, features = ["rt"] }
warp = { version = "=0.3.7", default-features = false }
