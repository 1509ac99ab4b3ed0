[package]
name = "emmc_block"
version = "0.1.0"
edition = "2021"
publish = false

[dependencies]
axdriver_base = "*"
sdmmc = "*"
log = "0.4"
