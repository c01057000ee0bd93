[package]
name = "jpdb_connect"
version = "0.1.0"
edition = "2021"
publish = false

[dependencies]
anyhow = "1"
chrono = "0.4"
fern = "0.6"
log = { version = "0.4", features = ["serde"] }
open = "3"
reqwest = { version = "0.11", features = ["cookies"] }
serde = { version = "1", features = ["derive"] }
serde_json = "1"
serde_urlencoded = "0.7"
tokio = { version = "1", features = ["macros", "rt-multi-thread", "sync", "time"] }
toml = "0.5"
warp = "0.3"

[dev-dependencies]
chumsky = { version = "0.9", default-features = false, features = ["std"] }
