[package]
name = "kiboard"
version = "2.0.1"
edition = "2021"
publish = false

[dependencies]
rand = "0.8"
sha2 = "0.10"
base64 = "0.22"
qrcode = { version = "0.14", default-features = false, features = ["svg"] }
serde = { version = "1", features = ["derive"] }
serde_json = "1"
tokio = { version = "1", features = ["rt-multi-thread", "macros", "net", "time", "sync", "io-util"] }
tokio-tungstenite = "0.26"
futures-util = "0.3"
dirs = "6"
local-ip-address = "0.6"
mdns-sd = "0.13"
rcgen = { version = "0.14", default-features = false, features = ["crypto", "ring", "pem"] }
tokio-rustls = { version = "0.26", default-features = false, features = ["ring", "logging", "tls12"] }
enigo = "0.3"
active-win-pos-rs = "0.9"
