[package]
name = "wrangler"
version = "0.1.0"
edition = "2021"
publish = false

[dependencies]
chrome-devtools-rs = "=0.0.0-alpha.0"
cloudflare = "=0.6.6"
console = "=0.15.11"
failure = "=0.1.8"
futures = "=0.3.34"
log = "=0.4.34"
prettytable-rs = { version = "=0.10.0", default-features = false }
serde_json = "=1.0.154"
tokio = { version = "=1.54.1", features = ["macros", "net", "rt", "sync", "time"] }
tokio-tungstenite = { version = "=0.21.0", features = ["native-tls"] }
tungstenite = "=0.21.0"
unicode-width = "=0.1.14"
url = "=2.5.8"
