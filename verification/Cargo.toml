[package]
name = "disk_image_inspector"
version = "0.1.0"
edition = "2021"
publish = false

[dependencies]
chrono = "*"
codepage-437 = "*"
env_logger = "*"
getopts = "*"
hex = "*"
log = "*"
phf = { version = "*", features = ["macros"] }
uuid = "*"
