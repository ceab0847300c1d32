[package]
name = "render_core"
version = "0.1.0"
edition = "2021"
publish = false

[dependencies]
glutin = "0.21"
gl = "0.14"
slog = "2"
slog-term = "2"
slog-async = "2"
android_glue = "0.2"
