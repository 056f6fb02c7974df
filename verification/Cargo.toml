[package]
name = "enchantron-core"
version = "0.1.0"
edition = "2021"
publish = false

[dependencies]
rstar = "*"
png = "0.16"
tokio = { version = "1", default-features = false, features = ["sync"] }
