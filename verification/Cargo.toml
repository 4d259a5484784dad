[package]
name = "alacritty_terminal"
version = "0.1.0"
edition = "2021"
publish = false

[dependencies]
glutin = { version = "=0.21.2", features = ["icon_loading"] }
image = "=0.21.3"
libc = "=0.2.191"
log = "=0.4.34"
serde = { version = "=1.0.229", features = ["derive"] }
vulkano = "=0.13.0"
vulkano-win = "=0.13.0"
x11-dl = "=2.21.0"
