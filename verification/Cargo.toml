[package]
name = "markemptydirs"
version = "0.1.0"
edition = "2021"
publish = false

[dependencies]
pathdiff = "*"
rayon = "*"
clap = "*"
log = "*"
std-logger = "*"
