[package]
name = "canvas_demo"
version = "0.1.0"
edition = "2021"
publish = false

[dependencies]
rand = "*"
futures = "*"
wasm-bindgen = "*"
wasm-bindgen-futures = "*"
web-sys = { version = "*", features = ["Window", "Document", "Element", "HtmlCanvasElement", "CanvasRenderingContext2d", "HtmlImageElement", "console"] }
console_error_panic_hook = "*"
