[package]
name = "aip"
version = "0.1.0"
edition = "2021"
publish = false

[dependencies]
anyhow = "=1.0.104"
axum = "=0.8.9"
base64 = "=0.23.1"
chrono = "=0.4.45"
clap = { version = "=4.6.7", features = ["derive"] }
dialoguer = "=0.12.0"
dirs = "=7.0.0"
fantoccini = "=0.22.1"
image = { version = "=0.25.10", default-features = false, features = ["jpeg"] }
indicatif = "=0.18.6"
minijinja = "=2.24.0"
open = "=5.4.4"
rand = "=0.10.3"
reqwest = { version = "=0.13.5", default-features = false, features = ["json", "form", "native-tls"] }
serde = { version = "=1.0.229", features = ["derive"] }
serde_json = "=1.0.151"
sha2 = "=0.11.0"
tokio = { version = "=1.53.2", features = ["full"] }
tower-http = { version = "=0.7.1", features = ["cors", "trace", "fs"] }
tracing = "=0.1.44"
tracing-subscriber = "=0.3.23"
urlencoding = "=2.1.3"
