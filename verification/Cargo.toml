[package]
name = "pdf_folio_ui"
version = "0.1.0"
edition = "2021"
publish = false

[dependencies]
anyhow = "1"
directories = "5"
serde = { version = "1", features = ["derive"] }
serde_json = "1"
