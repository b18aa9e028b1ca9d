[package]
name = "rusthonian"
version = "0.1.0"
edition = "2021"
publish = false

[dependencies]
md5 = "0.7"
sha1_smol = "1"
getrandom = "0.2"
pyo3 = "0.22"
