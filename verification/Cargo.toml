[package]
name = "spotty"
version = "0.1.0"
edition = "2021"
publish = false

[dependencies]
env_logger = "0.10"
futures-util = "0.3"
getopts = "0.2"
hex = "0.4"
librespot = { version = "0.4", default-features = false }
log = "0.4"
rpassword = "7"
serde_json = "1"
sha1 = "0.10"
tokio = { version = "1", features = ["macros", "rt", "signal", "sync"] }
url = "2"
