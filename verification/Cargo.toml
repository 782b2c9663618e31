[package]
name = "zdownload"
version = "0.1.0"
edition = "2021"
publish = false

[dependencies]
regex = "=1.13.1"
dirs-next = "=2.0.0"
serde = { version = "=1.0.229", features = ["derive"] }
serde_json = "=1.0.154"
dioxus = "=0.6.3"
tokio = { version = "=1.54.1", features = ["time"] }
rfd = { version = "=0.15.4", default-features = false, features = ["xdg-portal", "tokio"] }
# Not called by this program: the folder dialog binds to Wayland through this
# crate, and with `dlopen` the Wayland library is looked up when the dialog
# opens, so that building needs no system library.
wayland-sys = { version = "=0.31.11", features = ["dlopen"] }
