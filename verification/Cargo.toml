[package]
name = "media-server"
version = "0.1.0"
edition = "2021"
publish = false

[dependencies]
blurhash = "=0.2.3"
bytes = "=1.12.1"
env_logger = "=0.11.11"
image = "=0.25.10"
log = "=0.4.34"
rand = "=0.10.3"
reqwest = { version = "=0.12.28", default-features = false, features = ["blocking", "rustls-tls"] }
rusqlite = { version = "=0.40.2", features = ["bundled"] }
serde = { version = "=1.0.229", features = ["derive"] }
serde_json = "=1.0.151"
structopt = "=0.3.26"
tokio = { version = "=1.53.2", features = ["macros", "rt-multi-thread"] }
warp = { version = "=0.4.3", features = ["server"] }
yup-oauth2 = "=12.1.2"
