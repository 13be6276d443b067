[package]
name = "kms_present"
version = "0.1.0"
edition = "2021"
publish = false

[dependencies]
drm = "*"
eyre = "*"
image = "*"
