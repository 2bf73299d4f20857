[package]
name = "maikor_vm_core"
version = "0.1.0"
edition = "2021"
publish = false

[dependencies]
maikor-platform = "=0.1.29"
blip_buf = "=0.2.1"

[dev-dependencies]
maikor-language = "=0.1.16"
