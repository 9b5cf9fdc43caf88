[package]
name = "kartof_play"
version = "0.1.0"
edition = "2021"
publish = false

[dependencies]
visdom = "=1.0.4"
chrono = "=0.4.45"
urlencoding = "=2.1.3"
rand = "=0.8.8"
serde = { version = "=1.0.229", features = ["derive"] }
serde_json = "=1.0.154"
reqwest = { version = "=0.12.28", default-features = false, features = ["blocking", "rustls-tls"] }
threadpool = "=1.8.1"
choki = "=1.1.19"
dojang = "=0.1.6"
dotenv = "=0.15.0"
lazy_static = "=1.5.1"
mongodb = { version = "=2.8.2", features = ["tokio-sync"] }
handlebars = "=5.1.2"
