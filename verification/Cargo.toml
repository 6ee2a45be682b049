[package]
name = "graph"
version = "0.1.0"
edition = "2021"
publish = false

[dependencies]
imgui = "=0.12.0"
imgui-glow-renderer = "=0.13.0"
imgui-sdl3-support = "=0.13.0"
parking_lot = "=0.12.5"
proc-macro2 = "=1.0.107"
quote = "=1.0.47"
sdl3 = "=0.14.42"
syn = { version = "=2.0.119", features = ["full"] }
