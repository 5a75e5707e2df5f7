[package]
name = "wglymr-node-editor"
version = "0.1.0"
edition = "2021"
publish = false

[dependencies]
serde = { version = "=1.0.229", features = ["derive"] }
serde_json = "=1.0.154"
cosmic-text = "=0.19.0"
wgpu = "=30.0.1"
wasm-bindgen = "=0.2.130"
wasm-bindgen-futures = "=0.4.80"
web-sys = { version = "=0.3.107", features = ["HtmlCanvasElement", "Window", "Document", "Element"] }
console_error_panic_hook = "=0.1.7"
