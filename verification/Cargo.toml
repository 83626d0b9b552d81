[package]
name = "metrics_exporter_sentry"
version = "0.1.0"
edition = "2021"
publish = false

[dependencies]
metrics = "0.22"
sentry = { version = "=0.32.2", default-features = false, features = ["UNSTABLE_metrics"] }
