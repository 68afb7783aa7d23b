[package]
name = "rioc"
version = "0.1.0"
edition = "2021"
publish = false

[dependencies]
may = "*"
crossbeam = "*"
serde_json = "*"
