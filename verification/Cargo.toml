[package]
name = "stabilizer_core"
version = "0.1.0"
edition = "2021"
publish = false

[dependencies]
fastrand = "*"
line_drawing = "*"
rayon = "*"
parking_lot = "*"
nalgebra = "*"
simd-json = "*"
