[package]
name = "loadgen"
version = "0.1.0"
edition = "2021"
publish = false

[dependencies]
anyhow = "*"
aws-config = "*"
aws-credential-types = "*"
aws-sdk-dsql = "*"
aws-sdk-lambda = "*"
chrono = "*"
clap = { version = "*", features = ["derive"] }
hdrhistogram = { version = "*", default-features = false }
indicatif = "*"
rand = "*"
serde = { version = "*", features = ["derive"] }
serde_json = "*"
sqlx = { version = "*", default-features = false, features = ["postgres", "runtime-tokio", "chrono", "uuid"] }
tokio = { version = "*", features = ["macros", "rt-multi-thread", "signal", "sync", "time"] }
tracing = "*"
tracing-subscriber = "*"
uuid = "*"
