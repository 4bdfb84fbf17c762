[package]
name = "midi_event"
version = "0.1.0"
edition = "2021"
publish = false

[dependencies]
serde = { version = "1", features = ["derive"] }
arbitrary = { version = "1", features = ["derive"] }
