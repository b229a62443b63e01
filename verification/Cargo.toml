[package]
name = "egui_baseview"
version = "0.1.0"
edition = "2021"
publish = false

[dependencies]
copypasta = "*"
open = "*"
egui = "*"
egui_glow = "*"
egui-wgpu = "*"
pollster = "*"
keyboard-types = "*"
