[package]
name = "autolinux"
version = "0.1.0"
edition = "2021"
publish = false

[dependencies]
crossterm = "0.28"
flate2 = "1"
libc = "0.2"
ratatui = "0.29"
tar = "0.4"
ureq = "2"
xz2 = "0.1"
