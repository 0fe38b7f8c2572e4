[package]
name = "nsh"
version = "0.1.0"
edition = "2021"
publish = false

[dependencies]
cyphernet = "=0.5.4"
netservices = { version = "=0.8.1", features = ["eidolon"] }
io-reactor = "=0.5.2"
socket2 = "=0.5.10"
log = "*"
