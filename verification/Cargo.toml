[package]
name = "control_panel"
version = "0.1.0"
edition = "2021"
publish = false

[dependencies]
tokio = { version = "*", features = ["sync", "rt-multi-thread", "macros", "time"] }
serialport = "*"
gilrs = "*"
ratatui = "*"
crossterm = "*"
futures = "*"
