[package]
name = "libwezterm"
version = "0.1.0"
edition = "2021"
publish = false

[dependencies]
anyhow = "=1.0.104"
libc = "=0.2.191"
log = "=0.4.35"
env_logger = "=0.11.11"
portable-pty = "=0.9.0"
termwiz = "=0.23.3"
wezterm-color-types = "=0.3.0"
wezterm-bidi = "=0.2.3"
