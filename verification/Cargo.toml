[package]
name = "axiom_profiler"
version = "0.1.0"
edition = "2021"
publish = false

[dependencies]
indexmap = "2"
petgraph = "0.6"
yew = { version = "0.21", features = ["csr"] }
gloo = "0.11"
gloo-file = "0.3"
wasm-bindgen = "0.2"
wasm-bindgen-futures = "0.4"
wasm-streams = "0.4"
wasm-timer = "0.2"
web-sys = { version = "0.3", features = ["Blob", "Document", "DomTokenList", "DragEvent", "Element", "EventTarget", "HtmlCollection", "HtmlElement", "HtmlInputElement", "MouseEvent"] }
