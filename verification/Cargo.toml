[package]
name = "route53_util"
version = "0.1.0"
edition = "2021"
publish = false

[dependencies]
anyhow = "1"
aws-config = { version = "*", features = ["behavior-version-latest"] }
aws-sdk-route53 = "*"
structopt = "0.3"
tokio = { version = "1", features = ["macros", "rt-multi-thread"] }
