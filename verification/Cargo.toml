[package]
name = "secret_random"
version = "0.1.0"
edition = "2021"
publish = false

[dependencies]
sha2 = "*"
aes-siv = "*"
tendermint = "*"
tendermint-proto = "*"
prost = "*"
bytes = "*"
getrandom = "*"
libc = "*"
log = "*"
simple_logger = "*"
ctor = "*"
lazy_static = "*"
sgx_types = "*"
