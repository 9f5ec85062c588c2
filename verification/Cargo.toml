[package]
name = "dfu_cross_usb"
version = "0.1.0"
edition = "2021"
publish = false

[dependencies]
dfu-core = { version = "=0.11.1", features = ["std", "async"] }
cross_usb = "=0.4.1"
futures = "=0.3.34"
thiserror = "=2.0.21"
wasm-bindgen-futures = "=0.4.79"
