[package]
name = "vmm"
version = "0.1.0"
edition = "2021"
publish = false

[dependencies]
linux-loader = { version = "*", features = ["elf"] }
kvm-ioctls = "*"
kvm-bindings = "*"
vm-memory = { version = "*", features = ["backend-mmap"] }
vm-device = "*"
vm-superio = "*"
event-manager = "*"
vmm-sys-util = "*"
libc = "*"
