[package]
name = "auto_git"
version = "0.1.0"
edition = "2021"
publish = false

[dependencies]
eframe = { version = "0.32", default-features = false, features = ["default_fonts", "glow", "x11"] }
rfd = "0.15"
powershell_script = "1"
win-msgbox = "*"
log = "0.4"
env_logger = "0.11"
