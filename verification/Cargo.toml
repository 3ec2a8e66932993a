[package]
name = "sg2002_hal"
version = "0.1.0"
edition = "2021"
publish = false

[dependencies]
axplat = "*"
dw_apb_uart = "*"
kspin = "*"
lazyinit = "*"
riscv = "*"
sbi-rt = "*"
