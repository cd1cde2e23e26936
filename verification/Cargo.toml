[package]
name = "gilvave_ui"
version = "0.1.0"
edition = "2021"
publish = false

[dependencies]
regex = "=1.13.1"
validator = "=0.21.0"
time = { version = "=0.3.55", features = ["formatting", "parsing", "wasm-bindgen", "serde-well-known"] }
serde = { version = "=1.0.229", features = ["derive"] }
serde_json = "=1.0.154"
strum = { version = "=0.28.0", features = ["derive"] }
sycamore = { version = "=0.9.4", features = ["suspense"] }
web-sys = { version = "=0.3.107", features = ["Window", "Response", "Request", "RequestInit", "Headers", "HtmlElement", "HtmlSelectElement", "HtmlInputElement", "Element", "MouseEvent", "SubmitEvent", "Event", "ReadableStream", "Storage"] }
wasm-bindgen = "=0.2.130"
wasm-bindgen-futures = "=0.4.80"
js-sys = "=0.3.107"
futures-util = { version = "=0.3.34", features = ["io"] }
futures-channel = "=0.3.34"
gloo-timers = { version = "=0.4.0", features = ["futures"] }
ws_stream_wasm = "=0.7.5"
wasm-streams = "=0.7.0"
console_error_panic_hook = "=0.1.7"
tracing = "=0.1.44"
