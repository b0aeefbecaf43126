[package]
name = "check_if_email_exists"
version = "0.1.0"
edition = "2021"
publish = false

[dependencies]
mailchecker = "=6.0.21"
levenshtein = "=1.0.5"
md5 = "=0.7.0"
async-smtp = { version = "=0.9.2", default-features = false, features = ["runtime-tokio"] }
serde = { version = "=1.0.229", features = ["derive"] }
serde_json = "=1.0.154"
tokio = { version = "=1.54.1", features = ["rt-multi-thread", "macros", "net", "time", "io-util"] }
hickory-resolver = "=0.24.4"
reqwest = { version = "=0.12.28", default-features = false, features = ["json", "rustls-tls"] }
rand = "=0.8.8"
fast-socks5 = "=1.0.0"
config = { version = "0.14", default-features = false, features = ["toml"] }
fantoccini = { version = "0.21", default-features = false, features = ["rustls-tls"] }
