[package]
name = "luksbox_gui"
version = "0.1.0"
edition = "2021"
publish = false

[dependencies]
arboard = { version = "3", default-features = false }
dirs = "*"
eframe = { version = "*", default-features = false, features = ["default_fonts", "glow", "wayland", "x11"] }
egui = "*"
egui_extras = { version = "*", features = ["image"] }
image = { version = "0.25", default-features = false, features = ["png"] }
rand_core = { version = "0.6", features = ["getrandom"] }
rfd = "*"
serde = { version = "1", features = ["derive"] }
serde_json = "1"
sha2 = "0.10"
zeroize = "1"
zxcvbn = "3"
