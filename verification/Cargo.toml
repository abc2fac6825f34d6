[package]
name = "git_s3_snapshot"
version = "0.1.0"
edition = "2021"
publish = false

[dependencies]
aws-config = "*"
aws-sdk-s3 = "*"
clap = { version = "*", features = ["derive", "env"] }
dotenvy = "*"
tempfile = "*"
tokio = { version = "*", features = ["macros", "rt-multi-thread"] }
