[package]
name = "data_explorer"
version = "0.1.0"
edition = "2021"
publish = false

[dependencies]
sqlite-wasm-rs = "=0.5.5"
rsqlite-vfs = "=0.1.1"
serde = { version = "=1.0.229", features = ["derive"] }
serde-wasm-bindgen = "=0.6.5"
thiserror = "=2.0.21"
log = "=0.4.35"
console_log = "=1.1.0"
console_error_panic_hook = "=0.1.7"
js-sys = "=0.3.107"
wasm-bindgen = "=0.2.130"
wasm-bindgen-futures = "=0.4.80"
web-sys = { version = "=0.3.107", features = ["Worker", "WorkerOptions", "WorkerType", "MessageEvent", "DedicatedWorkerGlobalScope", "Blob", "Url", "HtmlAnchorElement", "HtmlInputElement", "FileReader", "File", "FileList", "Event", "EventTarget", "Document", "Element"] }
tokio = { version = "=1.54.1", default-features = false, features = ["sync"] }
fragile = "=3.0.0"
once_cell = "=1.21.4"
leptos = "=0.8.23"
reactive_stores = "=0.4.4"
