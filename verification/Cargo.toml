[package]
name = "dioxico"
version = "0.1.0"
edition = "2021"
publish = false

[dependencies]
csscolorparser = "0.6"
dioxus = { version = "0.4", default-features = false, features = ["macro", "html", "hooks"] }
js-sys = "0.3"
wasm-bindgen = "0.2"
web-sys = { version = "0.3", features = ["Window", "Document", "console"] }
