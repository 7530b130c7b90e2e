[package]
name = "bench_charts"
version = "0.1.0"
edition = "2021"
publish = false

[dependencies]
plotters = { version = "0.2", default-features = false, features = ["svg", "area_series", "line_series"] }
