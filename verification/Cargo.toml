[package]
name = "game_of_life_gpu"
version = "0.1.0"
edition = "2021"
publish = false

[dependencies]
array2d = "*"
bytemuck = "*"
image = { version = "*", default-features = false, features = ["png"] }
indicatif = "*"
pollster = "*"
rand = "*"
wgpu = "*"
