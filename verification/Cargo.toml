[package]
name = "mechanix"
version = "0.1.0"
edition = "2021"
publish = false

[dependencies]
serde = { version = "=1.0.229", features = ["derive"] }
zbus = "=6.2.1"
zbus_polkit = "=6.0.0"
freedesktop-icons = "=0.4.0"
futures-util = { version = "=0.3.34", default-features = false, features = ["std"] }
