[package]
name = "supreme_server"
version = "0.1.0"
edition = "2021"
publish = false

[dependencies]
rppal = "*"
system_shutdown = "*"
systemctl = "*"
tiny_http = "*"
