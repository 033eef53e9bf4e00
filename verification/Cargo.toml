[package]
name = "uniedge"
version = "0.1.0"
edition = "2021"
publish = false

[dependencies]
fdt = "0.1"
smoltcp = "0.12"
virtio-drivers = "*"
linked_list_allocator = "0.10"
