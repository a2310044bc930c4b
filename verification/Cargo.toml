[package]
name = "regolith-inputd"
version = "0.1.0"
edition = "2021"
publish = false

[dependencies]
swayipc = "3.0.3"
serde = { version = "1", features = ["derive"] }
serde_json = "1"
log = "0.4"
pretty_env_logger = "0.5"
notify = "*"
gio = "*"
