[package]
name = "builder_gen"
version = "0.1.0"
edition = "2021"
publish = false

[dependencies]
anyhow = "=1.0.104"
clap = { version = "=4.6.7", features = ["derive"] }
config = { version = "=0.15.27", default-features = false, features = ["toml"] }
futures = "=0.3.34"
log = "=0.4.34"
logforth = { version = "=0.30.1", features = ["starter-log"] }
opendal = { version = "=0.59.5", features = ["services-obs", "services-oss"] }
proc-macro2 = "=1.0.107"
quote = "=1.0.47"
serde = { version = "=1.0.229", features = ["derive"] }
syn = "=2.0.119"
tokio = { version = "=1.54.1", features = ["full"] }
