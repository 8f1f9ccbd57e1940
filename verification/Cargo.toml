[package]
name = "pixelmosh"
version = "0.1.0"
edition = "2021"
publish = false

[dependencies]
rand = "0.8"
rand_chacha = "0.3"
fast_image_resize = "2"
png = "0.17"
clap = "4"
indicatif = "0.17"
