[package]
name = "gbsdiff"
version = "0.1.0"
edition = "2021"
publish = false

[dependencies]
argh = "*"
discrim = "*"
gb-cpu-sim = "*"
owo-colors = { version = "*", features = ["supports-colors"] }
parse-display = "*"
slicedisplay = "*"
thiserror = "*"
