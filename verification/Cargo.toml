[package]
name = "carambolage"
version = "0.1.0"
edition = "2021"
publish = false

[dependencies]
getopts = "=0.2.24"
nalgebra = "=0.30.1"
ncollide3d = "=0.33.0"
