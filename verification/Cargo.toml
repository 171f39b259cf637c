[package]
name = "render_core"
version = "0.1.0"
edition = "2021"
publish = false

[dependencies]
glam = "=0.30.10"
bytemuck = { version = "=1.25.2", features = ["derive"] }
wgpu = "=28.0.0"
cgmath = "=0.18.0"
js-sys = "=0.3.106"
wasm-bindgen = "=0.2.129"
wasm-bindgen-futures = "=0.4.79"
serde = { version = "=1.0.229", features = ["derive"] }
serde-wasm-bindgen = "=0.6.5"
console_error_panic_hook = "=0.1.7"
web-sys = { version = "=0.3.106", features = ["console", "CssStyleDeclaration", "Document", "Element", "EventTarget", "HtmlCanvasElement", "HtmlDivElement", "HtmlElement", "Navigator", "Node", "Screen", "WebGl2RenderingContext", "WebGlBuffer", "WebGlFramebuffer", "WebGlProgram", "WebGlShader", "WebGlTexture", "WebGlUniformLocation", "WebGlVertexArrayObject", "Window"] }
