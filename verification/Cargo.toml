[package]
name = "rust_sys_installer"
version = "0.1.0"
edition = "2021"
publish = false

[dependencies]
serde_json = "1"
thiserror = "1"
indicatif = "0.17"
os_info = "3"
