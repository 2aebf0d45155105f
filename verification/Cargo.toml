[package]
name = "path_tracer"
version = "0.1.0"
edition = "2021"
publish = false

[dependencies]
fastrand = "2"
glam = "0.24"
image = { version = "0.24", default-features = false }
itertools = "0.11"
log = "0.4"
rayon = "1"
simple_logger = "4"
