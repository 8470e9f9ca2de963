[package]
name = "byebyedpi_core"
version = "0.1.0"
edition = "2021"
publish = false

[dependencies]
anyhow = "=1.0.104"
arc-swap = "=1.9.3"
bytes = "=1.12.1"
chrono = { version = "=0.4.45", default-features = false, features = ["clock"] }
crossbeam = "=0.8.5"
dashmap = "=6.2.1"
futures = "=0.3.34"
hex = "=0.4.3"
local-ip-address = "=0.6.13"
md-5 = "=0.10.6"
num_cpus = "=1.17.0"
pnet_packet = "=0.35.0"
rand = "=0.8.8"
rand_core = { version = "=0.6.4", features = ["getrandom"] }
rayon = "=1.12.0"
reqwest = { version = "=0.12.28", default-features = false, features = ["rustls-tls"] }
rustc-hash = "=2.1.3"
rustls = { version = "=0.23.46", default-features = false, features = ["std", "tls12", "aws_lc_rs"] }
serde = { version = "=1.0.229", features = ["derive"] }
serde_json = "=1.0.154"
sha1 = "=0.10.7"
smallvec = "=1.16.4"
tokio = { version = "=1.54.1", features = ["full"] }
tokio-rustls = { version = "=0.26.6", default-features = false, features = ["tls12", "aws_lc_rs"] }
tracing = "=0.1.44"
uuid = { version = "=1.29.0", features = ["v4"] }
windivert = "=0.7.0-beta.4"
windows = { version = "=0.62.2", features = ["Win32_Foundation", "Win32_Networking_WinSock", "Win32_Security", "Win32_System_Services", "Win32_System_Threading"] }
wireguard-sans-io = "=1.0.0"
