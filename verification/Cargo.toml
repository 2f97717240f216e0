[package]
name = "cairo_listings"
version = "0.1.0"
edition = "2021"
publish = false

[dependencies]
regex = "1"
pulldown-cmark = { version = "0.9", default-features = false }
mdbook = { version = "0.4", default-features = false }
walkdir = "2"
clap = { version = "4", features = ["derive"] }
colored = "2"
indicatif = "0.17"
rayon = "1"
log = "0.4"
env_logger = "0.11"
serde = { version = "1", features = ["derive"] }
anyhow = "1"
