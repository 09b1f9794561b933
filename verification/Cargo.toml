[package]
name = "cboard"
version = "0.1.0"
edition = "2021"
publish = false

[dependencies]
arboard = "3"
auto-launch = "0.5"
device_query = "=2.1.0"
image = { version = "0.24", default-features = false, features = ["png"] }
parking_lot = "=0.12.5"
percent-encoding = "=2.3.2"
rdev = "=0.5.3"
serde = { version = "=1.0.229", features = ["derive"] }
serde_json = "=1.0.154"
tokio = { version = "1", features = ["rt", "rt-multi-thread"] }
winapi = { version = "=0.3.9", features = ["winuser", "libloaderapi", "minwindef", "windef", "winnls", "winnt"] }
