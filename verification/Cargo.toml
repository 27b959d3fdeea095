[package]
name = "i2c_qemu_chardev_mctp_tools"
version = "0.1.0"
edition = "2021"
publish = false

[dependencies]
mctp = "*"
mctp-estack = "*"
