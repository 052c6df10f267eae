[package]
name = "lap_stopwatch"
version = "0.1.0"
edition = "2021"
publish = false

[dependencies]
stopwatch = "0.0.7"
eframe = "0.16"
