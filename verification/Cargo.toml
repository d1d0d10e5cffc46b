[package]
name = "cryptography_error"
version = "0.1.0"
edition = "2021"
publish = false

[dependencies]
asn1 = "*"
openssl = "*"
pem = "*"
pyo3 = "*"
