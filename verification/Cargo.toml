[package]
name = "clinic_api"
version = "0.1.0"
edition = "2021"
publish = false

[dependencies]
anyhow = "=1.0.104"
aws-config = "=1.12.0"
aws-sdk-s3 = "=1.152.0"
# Held back for aws-config, which does not compile against aws-types 1.7.
aws-types = "=1.6.0"
axum = "=0.7.9"
base64 = "=0.21.7"
bcrypt = "=0.15.1"
chrono = { version = "=0.4.45", features = ["serde"] }
dotenvy = "=0.15.7"
image = { version = "=0.24.9", default-features = false, features = ["gif", "jpeg", "png"] }
jsonwebtoken = "=9.3.1"
lettre = "=0.11.23"
rand = "=0.8.8"
reqwest = { version = "=0.12.28", default-features = false, features = ["json", "default-tls"] }
serde = { version = "=1.0.229", features = ["derive"] }
serde_json = { version = "=1.0.154", features = ["float_roundtrip"] }
sqlx = { version = "=0.7.4", default-features = false, features = ["runtime-tokio", "mysql", "chrono", "macros"] }
tokio = { version = "=1.54.1", features = ["macros", "rt-multi-thread", "net", "fs"] }
tower-http = { version = "=0.5.2", features = ["cors", "trace"] }
tracing = "=0.1.44"
tracing-subscriber = { version = "=0.3.23", features = ["env-filter"] }
uuid = { version = "=1.29.0", features = ["v4"] }
validator = { version = "=0.16.1", features = ["derive"] }
