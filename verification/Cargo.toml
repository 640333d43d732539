[package]
name = "pg_app_role_manager"
version = "0.1.0"
edition = "2021"
publish = false

[dependencies]
anyhow = "1"
chrono = { version = "=0.4.45", default-features = false, features = ["std"] }
clap = { version = "4", features = ["derive", "env"] }
postgres_rustls = "=0.1.3"
rustls = { version = "0.23", default-features = false, features = ["ring", "std", "tls12"] }
tokio = { version = "1", features = ["macros", "rt-multi-thread"] }
tokio-postgres = { version = "0.7", features = ["with-chrono-0_4"] }
tokio-rustls = { version = "0.26", default-features = false, features = ["ring", "tls12"] }
