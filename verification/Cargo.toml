[package]
name = "wamp"
version = "0.1.0"
edition = "2021"
publish = false

[dependencies]
ws = "=0.9.2"
url = "=2.5.8"
eventual = "=0.1.7"
serde = { version = "=1.0.229", features = ["derive"] }
serde_json = "=1.0.154"
rmp-serde = "=1.3.1"
log = "=0.4.34"
websocket = { version = "=0.27.1", default-features = false, features = ["sync"] }

[dev-dependencies]
mio-extras = "=2.0.6"
