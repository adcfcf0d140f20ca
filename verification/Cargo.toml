[package]
name = "completion_bridge"
version = "0.1.0"
edition = "2021"
publish = false

[dependencies]
futures-util = "0.3"
jni = "0.21"
libc = "0.2"
log = "0.4"
