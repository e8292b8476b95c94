[package]
name = "headless_browser"
version = "0.1.0"
edition = "2021"
publish = false

[dependencies]
sysinfo = "*"
num_cpus = "*"
tokio = { version = "*", features = ["full"] }
hyper = { version = "*", features = ["http1", "server", "client"] }
hyper-util = { version = "*", features = ["tokio"] }
http-body-util = "*"
bytes = "*"
