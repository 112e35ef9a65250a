[package]
name = "amax_node"
version = "0.1.0"
edition = "2021"
publish = false

[dependencies]
futures = "0.3"
sc-keystore = "*"
serde_json = "1"
sp-consensus = "*"
sp-consensus-aura = "*"
sp-timestamp = "*"
