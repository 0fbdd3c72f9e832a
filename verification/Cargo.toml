[package]
name = "lamco_rdp_server"
version = "0.1.0"
edition = "2021"
publish = false

[dependencies]
anyhow = "1"
ashpd = { version = "0.12", default-features = false, features = ["tokio"] }
chrono = { version = "=0.4.45", default-features = false, features = ["clock"] }
clap = { version = "4", features = ["derive", "env"] }
dirs = "6"
enumflags2 = "0.7"
ironrdp-cliprdr = "=0.9.0"
ironrdp-graphics = "=0.11.0"
ironrdp-pdu = "=0.11.0"
lamco-clipboard-core = { version = "=0.5.2", features = ["image"] }
lamco-portal = "=0.3.3"
libc = "0.2"
nonstick = "=0.1.2"
parking_lot = "0.12"
percent-encoding = "=2.3.2"
serde = { version = "1", features = ["derive"] }
serde_json = "=1.0.154"
tokio = { version = "1", features = ["full"] }
tokio-vsock = "0.7"
toml = "=0.9.12"
tracing = "0.1"
tracing-subscriber = { version = "0.3", features = ["env-filter", "json"] }
uuid = { version = "=1.29.0", features = ["v4"] }
zbus = { version = "5", default-features = false, features = ["tokio"] }
zeroize = "1"
