[package]
name = "lore"
version = "0.1.0"
edition = "2021"
publish = false

[dependencies]
miette = { version = "=3.3.0", features = ["fancy"] }
thiserror = "=1.0.69"
structopt = "=0.3.26"
oxigraph = { version = "=0.2.5", default-features = false }
graphql-parser = "=0.4.1"
