[package]
name = "frogsay"
version = "0.3.0"
edition = "2021"
publish = false

[dependencies]
futures = "=0.3.34"
getopts = "=0.2.24"
hyper = "=0.13.10"
hyper-tls = "=0.4.3"
itertools = "=0.7.11"
native-tls = "=0.2.18"
ole32-sys = "=0.2.0"
rand = "=0.4.6"
serde = { version = "=1.0.229", features = ["derive"] }
serde_json = "=1.0.154"
shell32-sys = "=0.1.2"
textwrap = "=0.6.0"
tokio = { version = "=0.2.25", features = ["rt-core", "io-driver", "time"] }
unicode-width = "=0.1.14"
winapi = "=0.2.8"
