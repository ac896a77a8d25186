[package]
name = "yew_google_material"
version = "0.1.0"
edition = "2021"
publish = false

[dependencies]
color-art = "=0.3.9"
stylist = { version = "=0.15.1", features = ["parser", "yew_integration"] }
yew = "=0.23.0"
web-sys = { version = "=0.3.106", features = ["CssStyleDeclaration", "Document", "DomRect", "Element", "EventTarget", "HtmlElement", "HtmlInputElement", "KeyboardEvent", "Node", "PointerEvent", "Window"] }
wasm-bindgen = "=0.2.129"
gloo-timers = { version = "=0.4.0", features = ["futures"] }
