[package]
name = "pytest_typechecker"
version = "0.1.0"
edition = "2021"
publish = false

[dependencies]
anyhow = "*"
bytecount = "*"
clap = { version = "*", features = ["derive"] }
colored = "*"
indicatif = "*"
prettytable-rs = "*"
rustpython-ast = "*"
rustpython-parser = "*"
rustpython-parser-core = "*"
