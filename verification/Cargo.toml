[package]
name = "digger"
version = "0.1.0"
edition = "2021"
publish = false

[dependencies]
clap = "*"
env_logger = "*"
http = "*"
log = "*"
reqwest = { version = "*", default-features = false, features = ["rustls-tls"] }
rusoto_core = { version = "*", default-features = false, features = ["rustls"] }
rusoto_s3 = { version = "*", default-features = false, features = ["rustls"] }
tame-oauth = { version = "*", features = ["gcp"] }
tokio = { version = "*", features = ["macros", "rt-multi-thread"] }
