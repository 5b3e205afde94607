[package]
name = "gittuit"
version = "0.1.0"
edition = "2021"
publish = false

[dependencies]
anyhow = "=1.0.104"
asyncgit = { version = "=0.28.1", default-features = false }
crossterm = "=0.28.1"
dirs = "=7.0.0"
easy-cast = "=0.5.2"
kstring = "=2.0.2"
libgit2-sys = "=0.18.3"
log = "=0.4.35"
ratatui = "=0.29.0"
serde = { version = "=1.0.229", features = ["derive"] }
serde_json = "=1.0.154"
simplelog = "=0.12.2"
