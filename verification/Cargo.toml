[package]
name = "egui_plotter"
version = "0.1.0"
edition = "2021"
publish = false

[dependencies]
egui = "*"
plotters-backend = "*"
