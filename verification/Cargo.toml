[package]
name = "piet-pathfinder"
version = "0.1.0"
edition = "2021"
publish = false

[dependencies]
font-kit = "=0.14.3"
image = { version = "=0.23.14", default-features = false }
pathfinder_canvas = "=0.5.0"
pathfinder_color = "=0.5.0"
pathfinder_content = "=0.5.0"
pathfinder_geometry = "=0.5.1"
piet = "=0.6.2"
