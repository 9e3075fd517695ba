[package]
name = "knowledge_manager"
version = "0.1.0"
edition = "2021"
publish = false

[dependencies]
anchor-lang = "0.29.0"
mpl-bubblegum = "1"
