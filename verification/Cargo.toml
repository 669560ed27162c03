[package]
name = "miniexec"
version = "0.1.0"
edition = "2021"
publish = false

[dependencies]
crossbeam = "*"
reqwest = { version = "*", default-features = false, features = ["blocking", "json"] }
html2md = "*"
mime = "*"
colored = "*"
anyhow = "*"
clap = { version = "*", features = ["derive"] }
syntect = { version = "*", default-features = false, features = ["default-fancy"] }
tokio = { version = "*", features = ["rt-multi-thread", "macros"] }
