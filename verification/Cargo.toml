[package]
name = "device_mirror"
version = "0.1.0"
edition = "2021"
publish = false

[dependencies]
eframe = { version = "=0.36.2", default-features = false, features = ["glow", "x11", "default_fonts"] }
egui = "=0.36.2"
egui_logger = "=0.12.0"
idevice = { version = "=0.1.68", features = ["usbmuxd", "core_device_proxy", "dvt", "rsd", "tunnel_tcp_stack"] }
image = { version = "=0.25.10", default-features = false, features = ["png"] }
log = "=0.4.34"
plist = "=1.10.1"
tokio = { version = "=1.53.2", features = ["rt-multi-thread", "sync"] }
