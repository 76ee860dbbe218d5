[package]
name = "layer_workspace"
version = "0.1.0"
edition = "2021"
publish = false

[dependencies]
wasm-bindgen = "0.2"
web-sys = { version = "0.3", features = ["Window", "Document", "Element", "HtmlElement", "CssStyleDeclaration", "DomRect", "Event", "EventTarget", "MouseEvent", "Node"] }
