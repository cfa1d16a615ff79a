[package]
name = "pich8"
version = "0.1.0"
edition = "2021"
publish = false

[dependencies]
bitvec = "=1.1.1"
getopts = "=0.2.24"
getset = "=0.1.7"
glium = "=0.30.2"
imgui = "=0.8.2"
imgui-glium-renderer = "=0.8.2"
imgui-winit-support = "=0.8.2"
rand = "=0.8.8"
reqwest = { version = "=0.11.27", default-features = false, features = ["blocking", "rustls-tls"] }
rmp-serde = "=1.3.1"
rodio = { version = "=0.14.0", default-features = false }
serde = { version = "=1.0.229", features = ["derive"] }
tinyfiledialogs = "=3.9.1"
url = "=2.5.8"
