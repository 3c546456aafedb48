[package]
name = "twoyi_bootstrap"
version = "0.1.0"
edition = "2021"
publish = false

[dependencies]
jni = "0.21"
ndk = "*"
ndk-sys = "*"
libc = "0.2"
log = "0.4"
android_logger = "*"
