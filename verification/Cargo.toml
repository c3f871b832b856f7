[package]
name = "channel_batch"
version = "0.1.0"
edition = "2021"
publish = false

[dependencies]
rand = "=0.8.8"
tokio = { version = "=1.53.2", default-features = false, features = ["sync", "time"] }
bdk = { version = "=0.29.0", default-features = false, features = ["std"] }
lightning = "=0.0.116"
serde = { version = "=1.0.229", features = ["derive"] }
sea-orm = { version = "=0.12.15", default-features = false, features = ["macros", "with-uuid"] }
uuid = { version = "1", features = ["v4"] }
