[package]
name = "hyperion"
version = "0.1.0"
edition = "2021"
publish = false

[dependencies]
anyhow = "1"
bevy = { version = "0.16", default-features = false }
clap = { version = "4", default-features = false, features = ["std", "derive", "help", "usage", "error-context"] }
colored = "*"
dotenvy = "*"
envy = "*"
iroh-base = { version = "=0.35.0", default-features = false, features = ["key", "relay"] }
kanal = "*"
papaya = "*"
reqwest = { version = "0.12", default-features = false, features = ["rustls-tls"] }
rkyv = "0.8"
rustc-hash = "=2.1.3"
rustls = { version = "0.23", default-features = false, features = ["ring", "std", "tls12"] }
rustls-pki-types = { version = "=1.15.1", features = ["std"] }
rustls-webpki = { version = "=0.103.16", default-features = false, features = ["std", "ring"] }
serde = { version = "1", features = ["derive"] }
serde_json = "=1.0.154"
tikv-jemallocator = "*"
tokio = { version = "1", features = ["full"] }
tokio-rustls = { version = "0.26", default-features = false, features = ["ring", "tls12"] }
tokio-util = { version = "=0.7.20", features = ["net", "codec"] }
tracing = { version = "0.1", default-features = false, features = ["std", "attributes"] }
tracing-subscriber = { version = "0.3", default-features = false, features = ["fmt", "ansi", "env-filter"] }
uuid = "=1.29.0"
valence_protocol = "0.2.0-alpha.1"
valence_text = "0.2.0-alpha.1"
