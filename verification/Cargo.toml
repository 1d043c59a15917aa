[package]
name = "ops_tool"
version = "0.1.0"
edition = "2021"
publish = false

[dependencies]
zip = "*"
url = "*"
reqwest = { version = "*", default-features = false, features = ["blocking", "json"] }
serde = { version = "*", features = ["derive"] }
structopt = "*"
dirs = "*"
anyhow = "*"
log = "*"
env_logger = "*"
indicatif = "*"
