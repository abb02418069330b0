[package]
name = "chat_core"
version = "0.1.0"
edition = "2021"
publish = false

[dependencies]
chrono = "=0.4.45"
ed25519-dalek = "=2.2.0"
jsonwebtoken = "=9.3.1"
rand = "=0.8.8"
serde_json = { version = "=1.0.154", features = ["preserve_order"] }
sha2 = "=0.10.9"
uuid = { version = "=1.29.0", features = ["v4", "serde"] }
actix-web = "=4.18.1"
actix-ws = "=0.3.1"
async-trait = "=0.1.92"
futures = "=0.3.34"
redis = { version = "=0.27.6", features = ["tokio-comp"] }
sea-orm = { version = "=1.1.20", default-features = false, features = ["macros", "with-chrono", "with-uuid", "with-json"] }
sea-orm-migration = { version = "=1.1.20", default-features = false }
serde = { version = "=1.0.229", features = ["derive"] }
tracing = "=0.1.44"
