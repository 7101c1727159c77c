[package]
name = "pegasus"
version = "0.1.0"
edition = "2021"
publish = false

[dependencies]
cosmwasm-std = "*"
cosmwasm-schema = "*"
cw-storage-plus = "*"
cw-utils = "*"
cw2 = "*"
cw721 = "*"
cw721-base = "*"
semver = "*"
serde = "*"
sg721 = "*"
sg-std = "*"
thiserror = "*"
