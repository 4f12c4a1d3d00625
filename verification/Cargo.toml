[package]
name = "fling"
version = "0.1.0"
edition = "2021"
publish = false

[dependencies]
rand = "=0.8.8"
uuid = "=1.29.0"
whoami = "=1.6.1"
chacha20poly1305 = "=0.10.1"
bluer = { version = "=0.17.4", features = ["bluetoothd"] }
bluest = "=0.6.9"
dbus = { version = "=0.9.12", features = ["vendored"] }
tokio = { version = "=1.54.1", features = ["full"] }
futures = "=0.3.34"
futures-lite = "=2.6.1"
clap = { version = "=4.6.7", features = ["derive"] }
dialoguer = "=0.11.0"
indicatif = "=0.17.11"
anyhow = "=1.0.104"
