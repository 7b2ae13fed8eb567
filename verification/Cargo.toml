[package]
name = "lazy_pregen"
version = "0.1.0"
edition = "2021"
publish = false

[dependencies]
bincode = "1"
chrono = "0.4"
clap = "2"
ctrlc = "3.1"
failure = "0.1"
fern = "0.5"
log = "0.4"
nix = "0.15"
regex = "1"
serde = "1"
serde_derive = "1"
toml = "0.5"
