[package]
name = "island_map_generator"
version = "0.1.0"
edition = "2021"
publish = false

[dependencies]
noise = "0.9"
perlin2d = "0.2"
log = "0.4"
yew = "0.19"
wasm-bindgen = "0.2"
web-sys = { version = "0.3", features = ["CanvasRenderingContext2d", "Document", "Element", "HtmlCanvasElement", "HtmlInputElement", "Window"] }
