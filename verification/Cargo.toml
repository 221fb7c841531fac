[package]
name = "treecopy"
version = "0.1.0"
edition = "2021"
publish = false

[dependencies]
dircpy = "*"

[dev-dependencies]
tempfile = "*"
filetime = "*"
fs-err = "*"
