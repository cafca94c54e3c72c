[package]
name = "livesplit_hotkey"
version = "0.1.0"
edition = "2021"
publish = false

[dependencies]
enigo = "0.0.14"
parking_lot = "*"
serde = { version = "*", features = ["derive"] }
winapi = { version = "0.3", features = ["winuser", "libloaderapi", "processthreadsapi"] }
