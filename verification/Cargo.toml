[package]
name = "muse"
version = "0.1.0"
edition = "2021"
publish = false

[dependencies]
chrono = "0.4"
anyhow = "1"
log = "0.4"
fern = "0.6"
dotenv = "0.15"
tokio = { version = "1", features = ["macros", "rt-multi-thread"] }
poise = "0.5"
songbird = { version = "0.3", features = ["builtin-queue"] }
