[package]
name = "hurl_adapters_lib"
version = "0.1.0"
edition = "2021"
publish = false

[dependencies]
kdl = "6"
clap = { version = "4", features = ["derive"] }
thiserror = "*"

[dev-dependencies]
hurl_core = "*"
