[package]
name = "cursor_override"
version = "0.1.0"
edition = "2021"
publish = false

[dependencies]
winapi = { version = "0.3", features = ["winuser", "errhandlingapi", "ntdef", "windef", "winerror"] }
winit = "0.27"
