[package]
name = "rbar"
version = "0.1.0"
edition = "2021"
publish = false

[dependencies]
uuid = { version = "*", features = ["v4"] }
chrono = "*"
serde = { version = "*", features = ["derive"] }
ron = "*"
clap = { version = "*", features = ["derive"] }
directories = "*"
csscolorparser = { version = "*", features = ["serde"] }
starship-battery = "*"
pulseaudio = "*"
