[package]
name = "identify_unused_iam"
version = "0.1.0"
edition = "2021"
publish = false

[dependencies]
aws-config = "*"
aws-sdk-iam = "*"
aws-smithy-types = "*"
csv = "*"
eyre = "*"
futures = "*"
serde = { version = "*", features = ["derive"] }
structopt = "*"
time = "*"
tokio = { version = "*", features = ["macros", "rt-multi-thread"] }
