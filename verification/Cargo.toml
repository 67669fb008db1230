[package]
name = "feed_bot"
version = "0.1.0"
edition = "2021"
publish = false

[dependencies]
chrono = "*"
rss = "*"
tokio = { version = "*", features = ["rt-multi-thread", "macros", "time"] }
reqwest = { version = "*", default-features = false, features = ["rustls-tls"] }
egg-mode = "*"
dotenv = "*"
structopt = "*"
