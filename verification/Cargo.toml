[package]
name = "smi_led"
version = "0.1.0"
edition = "2021"
publish = false

[dependencies]
memmap2 = "*"
rpi-mailbox = "*"
log = "*"
flexi_logger = "*"
libc = "*"
