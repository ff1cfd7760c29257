[package]
name = "gumwood"
version = "0.1.0"
edition = "2021"
publish = false

[dependencies]
serde_json = "*"
structopt = "*"
titlecase = "*"

[dependencies.reqwest]
version = "*"
default-features = false
features = ["blocking"]
