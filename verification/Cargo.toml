[package]
name = "frequency"
version = "0.1.0"
edition = "2021"
publish = false

[dependencies]
yew = { version = "0.17", features = ["web_sys"] }
wasm-bindgen = "*"
js-sys = "*"
web-sys = { version = "*", features = [
    "Window",
    "Document",
    "Element",
    "HtmlCanvasElement",
    "WebGlRenderingContext",
    "WebGlShader",
    "WebGlProgram",
    "WebGlBuffer",
    "WebGlTexture",
    "WebGlUniformLocation",
] }
