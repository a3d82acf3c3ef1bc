[package]
name = "oracledb"
version = "0.1.0"
edition = "2021"
publish = false

[dependencies]
aes = "*"
cbc = { version = "*", features = ["alloc"] }
des = "*"
md-5 = "*"
num-bigint = "*"
pbkdf2 = "*"
rand = "*"
sha2 = "*"
base16ct = { version = "*", features = ["alloc"] }
