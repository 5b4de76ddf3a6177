[package]
name = "input_query"
version = "0.1.0"
edition = "2021"
publish = false

[dependencies]
evdev = "=0.13.2"
parking_lot = "=0.12.5"
windows = { version = "=0.58.0", features = ["Win32_UI_Input_KeyboardAndMouse"] }
