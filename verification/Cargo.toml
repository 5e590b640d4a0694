[package]
name = "route_manager"
version = "0.1.0"
edition = "2021"
publish = false

[dependencies]
futures = "0.3"
tokio = { version = "1", features = ["rt"] }
log = "0.4"
err-derive = "*"
