[package]
name = "llm_prompt_gen"
version = "0.1.0"
edition = "2021"
publish = false

[dependencies]
serde = { version = "=1.0.229", features = ["derive"] }
serde_json = "=1.0.151"
tokio = { version = "=1.53.2", features = ["rt-multi-thread", "macros", "sync"] }
warp = { version = "=0.4.3", features = ["server", "websocket"] }
futures = "=0.3.34"
tokio-tungstenite = "=0.30.0"
