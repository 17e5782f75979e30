[package]
name = "vmm_core"
version = "0.1.0"
edition = "2021"
publish = false

[dependencies]
anyhow = "*"
kvm-bindings = "*"
kvm-ioctls = "*"
log = "*"
serde = { version = "*", features = ["derive"] }
serde_json = "*"
vmm-sys-util = "*"
