[package]
name = "tkey_luks"
version = "0.1.0"
edition = "2021"
publish = false

[dependencies]
argon2 = "=0.5.3"
blake2 = "=0.10.6"
chacha20 = { version = "=0.10.2", features = ["rng"] }
getrandom = "=0.4.3"
x25519-dalek = "=3.0.0"
p256 = "=0.14.0"
rustkey = "=0.5.0"
zeroize = "=1.9.1"
nix = { version = "=0.31.3", features = ["fs", "term"] }
libc = "=0.2.191"
termios = "=0.3.3"
rpassword = "=7.5.4"
tss-esapi = "=7.7.0"
serialport = { version = "=4.10.1", default-features = false }
tkeyclient = "=0.1.0"
