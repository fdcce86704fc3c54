[package]
name = "tgbot"
version = "0.1.0"
edition = "2021"
publish = false

[dependencies]
dashmap = "=6.2.1"
rand = "=0.8.8"
teloxide = { version = "=0.13.0", default-features = false, features = ["macros", "rustls", "ctrlc_handler"] }
takecell = "=0.1.1"
tokio = { version = "=1.54.1", features = ["macros", "rt-multi-thread", "process", "time", "fs"] }
tempfile = "=3.27.0"
dirs = "=5.0.1"
dotenvy = "=0.15.7"
dptree = "=0.3.0"
tracing = "=0.1.44"
tracing-subscriber = { version = "=0.3.23", features = ["env-filter"] }
