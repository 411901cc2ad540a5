[package]
name = "boringtun-cli"
version = "0.1.0"
edition = "2021"
publish = false

[dependencies]
boringtun = { version = "=0.6.0", features = ["device"] }
clap = { version = "=4.6.7", features = ["derive", "env"] }
daemonize = "=0.4.1"
tracing = "=0.1.44"
tracing-appender = "=0.2.5"
tracing-subscriber = "=0.3.23"
