[package]
name = "ue_gvas_handler"
version = "0.1.0"
edition = "2021"
publish = false

[dependencies]
libc = "=0.2.191"
serde_json = "=1.0.154"
uesave = "=0.5.0"
