[package]
name = "lasso"
version = "0.1.0"
edition = "2021"
publish = false

[dependencies]
bigdecimal = "0.4"
dotenvy = "0.15"
ethers = { version = "2", default-features = false, features = ["ws"] }
humantime = "2"
tokio = { version = "1", features = ["macros", "rt-multi-thread", "signal", "sync", "time"] }
tracing = "0.1"
tracing-subscriber = { version = "0.3", default-features = false, features = ["env-filter", "fmt"] }
url = "2"
