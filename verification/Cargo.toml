[package]
name = "twitter_video_dl"
version = "0.1.0"
edition = "2021"
publish = false

[dependencies]
chrono = "=0.4.45"
diesel = { version = "=1.4.8", features = ["postgres"] }
dotenvy = "=0.15.7"
dptree = "=0.3.0"
log = "=0.4.34"
pretty_env_logger = "=0.4.0"
reqwest = { version = "=0.11.27", default-features = false, features = ["json", "rustls-tls"] }
serde = { version = "=1.0.229", features = ["derive"] }
takecell = "=0.1.1"
teloxide = { version = "=0.12.2", default-features = false, features = ["rustls", "ctrlc_handler"] }
tokio = { version = "=1.54.1", features = ["rt-multi-thread", "macros"] }
