[package]
name = "global_push_to_talk"
version = "0.1.0"
edition = "2021"
publish = false

[dependencies]
global-hotkey = "=0.9.0"
libpulse-binding = "=2.30.1"
iced = { version = "=0.14.0", default-features = false, features = ["tiny-skia", "tokio", "x11", "wayland"] }
iced_fonts = { version = "=0.3.0", features = ["lucide"] }
ksni = "=0.3.7"
ashpd = { version = "=0.13.13", features = ["global_shortcuts"] }
mundy = "=0.2.3"
nix = { version = "=0.31.3", features = ["user"] }
notify-rust = "=4.18.2"
signal-hook = "=0.4.5"
signal-hook-tokio = { version = "=0.4.0", features = ["futures-v0_3"] }
tokio = { version = "=1.54.1", features = ["full"] }
tokio-stream = { version = "=0.1.19", features = ["net"] }
confy = "=2.0.0"
serde = { version = "=1.0.229", features = ["derive"] }
thiserror = "=2.0.21"
anyhow = "=1.0.104"
