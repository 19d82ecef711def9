[package]
name = "ala_archa_backend"
version = "0.1.0"
edition = "2021"
publish = false

[dependencies]
actix-web = "4"
anyhow = "1"
chrono = { version = "0.4", features = ["serde"] }
clap = { version = "4", features = ["derive"] }
derive_more = "0.99"
dhcpd_parser = "*"
humantime-serde = "1"
prometheus_exporter_base = "1"
reqwest = { version = "0.12", default-features = false, features = ["json", "rustls-tls"] }
serde = { version = "1", features = ["derive"] }
serde_json = "1"
serde_yaml = "0.9"
slog = "2"
slog-envlogger = "2"
slog-scope = "4"
slog-syslog = "0.13"
surge-ping = "0.8"
tokio = { version = "1", features = ["full"] }
tokio-cron-scheduler = "*"
