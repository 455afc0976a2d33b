[package]
name = "crystal_engine"
version = "0.1.0"
edition = "2021"
publish = false

[dependencies]
anyhow = "=1.0.104"
array-init = "=2.1.0"
cgmath = "=0.17.0"
fbxcel-dom = "=0.0.10"
genmesh = "=0.6.2"
image = { version = "=0.23.14", default-features = false, features = ["png", "tga"] }
obj = "=0.10.2"
parking_lot = "=0.11.2"
png = "=0.16.8"
rusttype = "=0.9.3"
thiserror = "=1.0.69"
vek = "=0.17.2"
vulkano = "0.20"
vulkano-win = "0.20"
winit = "0.24"
