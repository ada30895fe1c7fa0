[package]
name = "rusty_puzzles"
version = "0.1.0"
edition = "2021"
publish = false

[dependencies]
raqote = "0.8"
winit = "0.30"
pixels = "0.15"
muda = "0.15"
font-kit = "0.14"
pathfinder_geometry = "0.5"
log = "0.4"
env_logger = "0.11"
error-iter = "0.4"
