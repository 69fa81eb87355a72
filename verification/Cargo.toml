[package]
name = "tide-openssl"
version = "0.1.0"
edition = "2021"
publish = false

[dependencies]
async-h1 = "=2.3.4"
async-std = "=1.13.2"
async-std-openssl = "=0.6.3"
openssl = "=0.10.81"
tide = "=0.16.0"
