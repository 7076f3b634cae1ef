[package]
name = "openvpn_auth_hook"
version = "0.1.0"
edition = "2021"
publish = false

[dependencies]
aes-gcm = "0.10"
hex = "0.4"
hkdf = "0.12"
sha2 = "0.10"
libc = "0.2"
once_cell = "1"
obfstr = "0.4"
