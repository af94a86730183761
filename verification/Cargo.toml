[package]
name = "achat"
version = "0.1.0"
edition = "2021"
publish = false

[dependencies]
aws-smithy-json = "*"
aws-smithy-types = "*"
aws-config = "*"
aws-sdk-bedrockruntime = "*"
tokio = { version = "*", features = ["rt-multi-thread", "macros"] }
crossterm = "*"
eyre = "*"
