[package]
name = "rustkey_service"
version = "0.1.0"
edition = "2021"
publish = false

[dependencies]
webauthn-rs = "0.5"
axum = "0.8"
serde = { version = "1", features = ["derive"] }
tokio = { version = "1", features = ["macros", "rt-multi-thread", "net", "sync"] }
tower-http = { version = "0.6", features = ["cors"] }

[dev-dependencies]
webauthn-authenticator-rs = { version = "0.5", default-features = false, features = ["softpasskey"] }
