[package]
name = "orange_substrate_bot"
version = "0.1.0"
edition = "2021"
publish = false

[dependencies]
rand = "=0.8.8"
teloxide = { version = "=0.10.1", features = ["macros"] }
dptree = "=0.3.0"
tokio = { version = "=1.54.1", features = ["macros", "rt-multi-thread"] }
log = "=0.4.35"
env_logger = "=0.9.3"
pretty_env_logger = "=0.4.0"
once_cell = "=1.21.4"
takecell = "=0.1.1"
