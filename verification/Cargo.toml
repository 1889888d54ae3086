[package]
name = "feather_f405"
version = "0.1.0"
edition = "2021"
publish = false

[dependencies]
stm32f4xx-hal = { version = "=0.13.2", features = ["stm32f405", "usb_fs", "sdio-host"] }
embedded-hal = "=0.2.7"
spi-memory = "=0.2.0"
ws2812-timer-delay = "=0.3.0"
cortex-m = "=0.7.7"
usb-device = "=0.2.9"
usbd_scsi = "=0.1.0"
usbd_mass_storage = "=0.1.0"
embedded-sdmmc = "=0.3.0"
