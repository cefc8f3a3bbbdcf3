[package]
name = "dots_wallpaper"
version = "0.1.0"
edition = "2021"
publish = false

[dependencies]
image = "*"
imageproc = "*"
rand = "0.9"
rand_distr = "0.5"
