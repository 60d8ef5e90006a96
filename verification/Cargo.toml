[package]
name = "matrix_lively"
version = "0.1.0"
edition = "2021"
publish = false

[dependencies]
glow = "*"
js-sys = "0.3"
wasm-bindgen = "0.2"
web-sys = { version = "0.3", features = ["HtmlCanvasElement", "WebGl2RenderingContext"] }
