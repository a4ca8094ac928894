[package]
name = "gh_auth_proxy"
version = "0.1.0"
edition = "2021"
publish = false

[dependencies]
clap = { version = "4", features = ["derive", "env"] }
http-auth-basic = "0.3"
hyper = { version = "0.14", features = ["server", "client", "http1", "http2", "tcp"] }
hyper-reverse-proxy = "0.5"
reqwest = { version = "0.11", default-features = false, features = ["json", "rustls-tls"] }
serde = { version = "1", features = ["derive"] }
serde_json = "1"
tokio = { version = "1", features = ["macros", "rt-multi-thread", "sync"] }

[dev-dependencies]
base64 = "0.13"
