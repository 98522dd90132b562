[package]
name = "numbat_kernel"
version = "0.1.0"
edition = "2021"
publish = false

[dependencies]
numbat = { version = "=1.24.0", default-features = false }
codespan-reporting = "0.12"
termcolor = "1"
thiserror = "2"
wasm-bindgen = "*"
web-sys = { version = "*", features = ["Window", "Document", "Element", "DocumentFragment", "Node", "console"] }
