[package]
name = "car_simulation"
version = "0.1.0"
edition = "2021"
publish = false

[dependencies]
raqote = "0.8"
minifb = "0.19"
font-kit = "0.11"
usvg = "0.20"
resvg = "0.20"
tiny-skia = "0.6"
lazy_static = "1"
