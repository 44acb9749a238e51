[package]
name = "nsworkspace_monitor"
version = "0.1.0"
edition = "2021"
publish = false

[dependencies]
objc2 = "*"
objc2-app-kit = "*"
objc2-foundation = "*"
