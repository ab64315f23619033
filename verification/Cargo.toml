[package]
name = "mirrord_layer"
version = "0.1.0"
edition = "2021"
publish = false

[dependencies]
libc = "0.2"
multi-map = "1"
os_socketaddr = "0.2"
queues = "1"
rand = "0.8"
socketpair = "*"
tracing = "0.1"
frida-gum = "*"
