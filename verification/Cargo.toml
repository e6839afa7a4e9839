[package]
name = "echoinput"
version = "0.1.0"
edition = "2021"
publish = false

[dependencies]
anyhow = "1"
async-trait = "0.1"
cairo-rs = "*"
dirs = "*"
eframe = { version = "*", default-features = false, features = ["default_fonts", "glow", "wayland", "x11"] }
evdev = "*"
libc = "0.2"
serde = { version = "1", features = ["derive"] }
thiserror = "*"
tokio = { version = "1", features = ["full"] }
toml = "*"
tracing = "0.1"
tracing-subscriber = { version = "0.3", features = ["env-filter"] }
wayland-client = "*"
wayland-protocols-wlr = { version = "*", features = ["client"] }
