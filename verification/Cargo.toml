[package]
name = "tessera_client"
version = "0.1.0"
edition = "2021"
publish = false

[dependencies]
anyhow = "=1.0.104"
digest = "0.10"
hex = "=0.4.3"
itertools = "=0.15.0"
plonky2 = "=1.1.0"
plonky2_field = "=1.0.0"
primitive-types = "=0.14.0"
rand = "=0.10.3"
serde = { version = "=1.0.229", features = ["derive"] }

[dev-dependencies]
rand_chacha = "=0.10.0"
