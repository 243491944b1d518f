[package]
name = "curve_tracer"
version = "0.1.0"
edition = "2021"
publish = false

[dependencies]
nalgebra = "*"
csv = "*"
libflate = "*"
serde = "*"
serde_derive = "*"
structopt = "*"
itertools-num = "*"
log = "*"
simplelog = "*"
