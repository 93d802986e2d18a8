[package]
name = "pathtracer"
version = "0.1.0"
edition = "2021"
publish = false

[dependencies]
anyhow = "1"
glam = "0.24"
indicatif = "0.17"
png = "0.17"
rand = "0.8"
rayon = "1"
