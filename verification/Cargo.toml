[package]
name = "mcaptcha_showcase"
version = "0.1.0"
edition = "2021"
publish = false

[dependencies]
actix-web = { version = "4", default-features = false, features = ["macros", "compress-gzip"] }
actix-web-codegen-const-routes = "*"
argon2-creds = "0.2"
config = { version = "0.11", default-features = false, features = ["toml"] }
log = "0.4"
pretty_env_logger = "0.4"
reqwest = { version = "0.11", features = ["json"] }
serde = { version = "1", features = ["derive"] }
url = { version = "2", features = ["serde"] }
