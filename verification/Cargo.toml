[package]
name = "x32_vor_adapter"
version = "0.1.0"
edition = "2021"
publish = false

[dependencies]
x32_osc_state = "*"
serde = { version = "1", features = ["derive"] }
serde_json = "1"
app_dirs2 = "2"
tokio = { version = "1", features = ["net", "time", "rt", "macros", "sync"] }
