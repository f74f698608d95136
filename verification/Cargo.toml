[package]
name = "webcommands"
version = "0.1.0"
edition = "2021"
publish = false

[dependencies]
anyhow = "=1.0.104"
fantoccini = "=0.17.7"
serde = { version = "=1.0.229", features = ["derive"] }
serde_yaml = "=0.8.26"
structopt = "=0.3.26"
tokio = { version = "=1.54.1", features = ["macros", "rt-multi-thread", "time"] }
webdriver = "=0.43.1"
