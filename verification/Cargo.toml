[package]
name = "lark"
version = "0.1.0"
edition = "2021"
publish = false

[dependencies]
anyhow = "1"
chardetng = "0.1"
encoding_rs = "0.8"
ropey = "1"
cfg-if = "1"
log = "0.4"
env_logger = "0.9"
egui = "=0.19.0"
egui-winit = "=0.19.0"
egui_glow = "=0.19.0"
glutin = "0.29"
winit = "0.27"
