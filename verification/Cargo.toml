[package]
name = "tiny_link"
version = "0.1.0"
edition = "2021"
publish = false

[dependencies]
bcrypt = "=0.15.1"
diesel = { version = "=2.3.14", features = ["postgres", "r2d2"] }
dotenvy = "=0.15.7"
env_logger = "=0.10.2"
hyper = "=0.14.32"
jsonwebtoken = "=9.3.1"
log = "=0.4.35"
mime = "=0.3.17"
mime_guess = "=2.0.5"
r2d2 = "=0.8.10"
rand = "=0.8.8"
rust-embed = { version = "=8.13.0", features = ["interpolate-folder-path"] }
serde = { version = "=1.0.229", features = ["derive"] }
serde_derive = "=1.0.229"
serde_json = "=1.0.154"
tokio = { version = "=1.54.1", features = ["full"] }
url = "=2.5.8"
warp = "=0.3.7"
