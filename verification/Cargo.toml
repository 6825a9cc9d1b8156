[package]
name = "preroll"
version = "0.1.0"
edition = "2021"
publish = false

[dependencies]
uuid = { version = "=0.8.2", features = ["v4"] }
base64 = "=0.13.1"
serde = { version = "=1.0.229", features = ["derive"] }
serde_json = { version = "=1.0.154", features = ["preserve_order"] }
tide = "=0.16.0"
async-std = "=1.13.2"
log = "=0.4.34"
kv-log-macro = "=1.0.7"
env_logger = "=0.8.4"
chrono = "=0.4.45"
gethostname = "=0.2.3"
once_cell = "=1.21.4"
color-eyre = "=0.5.11"
dotenv = "=0.15.0"
eaze-tracing-honeycomb = "=0.2.1-eaze.7"
tracing = "=0.1.44"
tracing-subscriber = "=0.2.25"
libhoney-rust = "=0.1.6"
