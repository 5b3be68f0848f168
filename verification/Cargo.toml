[package]
name = "arrowcss"
version = "0.1.0"
edition = "2021"
publish = false

[dependencies]
cssparser = "0.33"
lightningcss = { version = "1.0.0-alpha.1", default-features = false }
smallvec = "1"
smol_str = "0.2"
serde = { version = "1", features = ["derive"] }
serde_json = "1"
rayon = "1"
rustc-hash = "1"
fxhash = "0.2"
notify = "6"
notify-debouncer-full = "0.3"
tracing = "0.1"
anyhow = "1"
