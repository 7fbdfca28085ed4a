[package]
name = "httping"
version = "0.1.0"
edition = "2021"
publish = false

[dependencies]
async-trait = "0.1"
color-eyre = "0.6"
cote = "*"
fastwebsockets = { version = "0.8", features = ["upgrade"] }
http = "1"
hyper = "1"
md-5 = "0.10"
prettytable-rs = "0.10"
ratatui = "0.27"
reqwest = { version = "0.12", default-features = false, features = ["cookies", "rustls-tls"] }
rustls = { version = "0.23", default-features = false, features = ["ring", "std", "tls12", "logging"] }
serde = { version = "1", features = ["derive"] }
serde_json = "1"
tokio = { version = "1", features = ["rt", "rt-multi-thread", "sync", "net", "macros"] }
tokio-rustls = { version = "0.26", default-features = false, features = ["ring", "tls12", "logging"] }
tracing = "0.1"
tracing-subscriber = { version = "0.3", features = ["env-filter"] }
webpki-roots = "0.26"
