[package]
name = "stagix"
version = "0.1.0"
edition = "2021"
publish = false

[dependencies]
anyhow = "1"
build_html = "2"
clap = { version = "4", features = ["derive"] }
gix = "*"
gix-date = "*"
nix = { version = "*", features = ["fs"] }
tracing = "0.1"
tracing-subscriber = "0.3"
