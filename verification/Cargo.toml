[package]
name = "ancs"
version = "0.1.0"
edition = "2021"
publish = false

[dependencies]
bluer = { version = "=0.17.4", features = ["bluetoothd"] }
dbus = { version = "=0.9.12", features = ["vendored"] }
env_logger = "=0.11.11"
futures = "=0.3.34"
rand = "=0.8.8"
tokio = { version = "=1.54.1", features = ["macros", "rt", "signal", "sync", "time"] }
