[package]
name = "morse_frames"
version = "0.1.0"
edition = "2021"
publish = false

[dependencies]
rand = "0.9"
japanese = "*"
ripmors = "*"
serialport = { version = "4", default-features = false }
chrono = { version = "0.4", features = ["serde"] }
serde = { version = "1", features = ["derive"] }
serde_json = "1"
parking_lot = "0.12"
clokwerk = "0.4"
ctrlc = "3"
tokio = { version = "1", features = ["macros", "rt-multi-thread"] }
uuid = { version = "1", features = ["v4"] }
warp = "0.3"
