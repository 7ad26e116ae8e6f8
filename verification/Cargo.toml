[package]
name = "chatbot"
version = "0.1.0"
edition = "2021"
publish = false

[dependencies]
serde = { version = "1", features = ["derive"] }
serde_json = "1"
uuid = { version = "1", features = ["v4", "js"] }
worker = { version = "*", features = ["http", "axum"] }
axum = { version = "*", default-features = false, features = ["query"] }
leptos = { version = "*", features = ["ssr"] }
leptos_axum = "*"
leptos_meta = "*"
leptos_router = "*"
leptos-use = "*"
tower-service = "*"
wasm-bindgen = "*"
web-sys = { version = "*", features = ["ScrollBehavior", "ScrollToOptions"] }
gloo-timers = "*"
