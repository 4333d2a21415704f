[package]
name = "pebble"
version = "0.1.0"
edition = "2021"
publish = false

[dependencies]
bit_field = "0.10"
ucs2 = "*"
spin = "*"
log = "0.4"
uefi = "*"
acpi = "*"
aml = "*"
