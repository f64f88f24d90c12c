[package]
name = "madsim-tonic-build"
version = "0.1.0"
edition = "2021"
publish = false

[dependencies]
prettyplease = "0.2"
proc-macro2 = "1"
prost-build = "0.13"
quote = "1"
syn = { version = "2", features = ["full"] }
tonic-build = "0.12"
