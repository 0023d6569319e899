[package]
name = "git_sync"
version = "0.1.0"
edition = "2021"
publish = false

[dependencies]
git2 = { version = "*", default-features = false }
uuid = { version = "*", features = ["v4"] }
hostname = "*"
url = "*"
regex = "*"
serde = { version = "*", features = ["derive"] }
serde_json = "*"
reqwest = { version = "*", default-features = false, features = ["blocking", "json"] }
actix-web = { version = "*", default-features = false }
http = "*"
log = "*"
env_logger = { version = "*", default-features = false }
simple_logger = { version = "*", default-features = false }
structopt = "*"
failure = "*"

[dev-dependencies]
tempfile = "*"
