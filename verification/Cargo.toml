[package]
name = "chromaticity"
version = "0.1.0"
edition = "2021"
publish = false

[dependencies]
colorimetry = { version = "=0.1.0", features = ["cct", "cri", "cfi"] }
eframe = { version = "=0.37.0", default-features = false, features = ["glow", "x11", "default_fonts"] }
nalgebra = "=0.33.3"
log = "=0.4.35"
