[package]
name = "solfunmeme_dioxus"
version = "0.1.0"
edition = "2021"
publish = false

[dependencies]
dioxus = { version = "0.7", default-features = false, features = ["macro", "html", "signals", "hooks"] }
tokio = { version = "1", features = ["time"] }
tracing = "0.1"
gloo-timers = { version = "0.3", features = ["futures"] }
wasm-bindgen-futures = "0.4"
web-sys = { version = "0.3", features = ["Window", "Navigator", "Clipboard"] }
