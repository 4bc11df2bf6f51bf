[package]
name = "kdotool"
version = "0.1.0"
edition = "2021"
publish = false

[dependencies]
anyhow = "1"
chrono = "0.4"
dbus = "0.9"
env_logger = "0.10"
handlebars = "4"
lexopt = "0.3"
log = "0.4"
serde_json = "1"
tempfile = "3"
