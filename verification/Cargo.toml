[package]
name = "acadcheck"
version = "0.1.7"
edition = "2021"
publish = false

[dependencies]
regex = "1"
serde = { version = "1", features = ["derive"] }
serde_json = "1"
anyhow = "1"
thiserror = "1"
file_diff = "1"
nix = { version = "0.26", features = ["user"] }
wait-timeout = "0.2"
tempfile = "3"
tokio = { version = "1", features = ["macros", "rt-multi-thread"] }
futures = "0.3"
futures-util = "0.3"
async-trait = "0.1"
http = "0.2"
shiplift = { version = "0.7", default-features = false, features = ["unix-socket"] }
zip = { version = "0.6", default-features = false, features = ["deflate"] }
actix-web = { version = "4", default-features = false, features = ["macros"] }
actix-multipart = "0.6"
tracing-actix-web = "0.7"
aws-config = "0.54"
aws-sdk-s3 = "0.24"
envy = "0.4"
env_logger = "0.10"
sanitize-filename = "0.4"
