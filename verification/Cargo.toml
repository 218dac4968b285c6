[package]
name = "eframe_text_agent"
version = "0.1.0"
edition = "2021"
publish = false

[dependencies]
egui = { version = "*", default-features = false }
js-sys = "*"
log = "*"
wasm-bindgen = "*"
web-sys = { version = "*", features = ["DomRect", "Element", "Event", "EventTarget", "HtmlCanvasElement", "HtmlElement", "Node"] }
