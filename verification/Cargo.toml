[package]
name = "sqlpackage_parser"
version = "0.1.0"
edition = "2021"
publish = false

[dependencies]
sqlparser = "*"
regex = "*"
encoding_rs = "*"
anyhow = "*"
rayon = "*"
