[package]
name = "lenso_knowledge_author_web_plugin"
version = "0.1.0"
edition = "2021"
publish = false

[dependencies]
lenso = "=0.5.30"
lenso-auth-sdk = "=0.2.3"
lenso-capability-auth = "=0.2.0"
lenso-capability-http-endpoint = "=0.3.9"
lenso-capability-knowledge-base = "=0.1.0"
lenso-kernel = "=0.3.13"
serde = { version = "=1.0.229", features = ["derive"] }

[dev-dependencies]
serde_json = "=1.0.154"
