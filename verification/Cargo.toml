[package]
name = "screenshot_tool_lib"
version = "0.1.0"
edition = "2021"
publish = false

[dependencies]
image = { version = "0.25", default-features = false, features = ["png"] }
rand = "0.8"
chrono = "0.4"
dirs = "5"
uuid = { version = "1", features = ["v4"] }
serde = { version = "1", features = ["derive"] }
arboard = "3"
once_cell = "1"
tracing = "0.1"
tokio = { version = "1", features = ["rt-multi-thread", "macros"] }
xcap = "*"
notify-rust = "4"

[dev-dependencies]
serde_json = "1"
