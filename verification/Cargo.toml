[package]
name = "rmk_boot"
version = "0.1.0"
edition = "2021"
publish = false

[dependencies]
embassy-boot = "*"
embassy-boot-rp = "*"
embassy-embedded-hal = "*"
embassy-nrf = { version = "*", features = ["nrf52840"] }
embassy-rp = { version = "*", features = ["rp2040"] }
embassy-sync = "*"
embassy-time = "*"
embassy-usb = "*"
embassy-usb-dfu = "*"
embedded-storage = "*"
static_cell = "*"
cortex-m = "*"
cortex-m-rt = "*"
defmt = "*"
defmt-rtt = "*"
