[package]
name = "sqlfriend-core"
version = "0.1.0"
edition = "2021"
publish = false

[dependencies]
anyhow = "=1.0.104"
ariadne = "=0.6.0"
dialoguer = "=0.12.0"
dirs = "=7.0.0"
jsonrpsee-types = "=0.24.11"
lsp-types = "=0.95.1"
rustyline = "=19.0.0"
rustyline-derive = "=0.13.0"
serde = { version = "=1.0.229", features = ["derive"] }
serde_json = "=1.0.154"
sqlx = { version = "=0.8.6", default-features = false, features = ["runtime-tokio", "any", "mysql", "postgres", "sqlite"] }
sqlx-core = "=0.8.6"
tempfile = "=3.27.0"
thiserror = "=2.0.21"
tokio = { version = "=1.54.1", features = ["full"] }
toml = "=1.1.8"
uuid = { version = "=1.29.0", features = ["v4"] }
