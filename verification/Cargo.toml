[package]
name = "mandelbrot"
version = "0.1.0"
edition = "2021"
publish = false

[dependencies]
colorous = "=1.0.16"
gtk4 = "=0.11.5"
rayon = "=1.12.0"
rustc_apfloat = "=0.2.3"
