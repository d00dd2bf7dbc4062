[package]
name = "xcb_errors"
version = "0.1.0"
edition = "2021"
publish = false

[dependencies]
bindgen = "*"
cc = "1"
thiserror = "=1.0.69"
xcb = "=0.10.1"
