[package]
name = "render_core"
version = "0.1.0"
edition = "2021"
publish = false

[dependencies]
anyhow = "1"
bytemuck = { version = "1", features = ["derive"] }
glam = "*"
gloo-timers = { version = "0.3", features = ["futures"] }
image = { version = "0.25", default-features = false, features = ["png"] }
wasm-bindgen = "0.2"
wasm-bindgen-futures = "0.4"
web-sys = { version = "0.3", features = ["Document", "DomRect", "Element", "Event", "EventTarget", "HtmlCanvasElement", "HtmlElement", "MouseEvent", "Performance", "PointerEvent", "WheelEvent", "Window", "console"] }
wgpu = "25"
