[package]
name = "bevy_extern_events"
version = "0.3.0"
edition = "2021"
publish = false

[dependencies]
bevy = { version = "0.12", default-features = false }
generic-global-variables = "*"
once_cell = "1"
