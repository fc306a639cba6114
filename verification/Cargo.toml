[package]
name = "braid_iroh"
version = "0.1.0"
edition = "2021"
publish = false

[dependencies]
blake3 = "*"
anyhow = "*"
tracing = "*"
iroh = "*"
iroh-gossip = "*"
