[package]
name = "web_sw_cor24_x_tinyc"
version = "0.1.0"
edition = "2021"
publish = false

[dependencies]
yew = { version = "0.21", features = ["csr"] }
wasm-bindgen = "0.2"
wasm-bindgen-futures = "0.4"
js-sys = "0.3"
gloo-timers = "0.3"
gloo-net = "0.6"
web-sys = { version = "0.3", features = ["HtmlSelectElement", "HtmlInputElement", "KeyboardEvent", "MouseEvent", "Event", "EventTarget", "File", "FileList", "Window", "Storage", "IdbDatabase", "IdbFactory", "IdbObjectStore", "IdbOpenDbRequest", "IdbRequest", "IdbTransaction", "IdbTransactionMode", "IdbVersionChangeEvent"] }
