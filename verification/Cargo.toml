[package]
name = "screen_dimmer"
version = "0.1.0"
edition = "2021"
publish = false

[dependencies]
edid = "=0.3.0"
clap = { version = "=4.6.7", features = ["derive"] }
ddc = "=0.2.2"
ddc-i2c = "=0.2.2"
i2c-linux = { version = "=0.1.2", features = ["udev"] }
udev = "0.2"
xrandr = "=0.2.0"
libwmctl = "=0.0.52"
