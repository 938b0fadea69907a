[package]
name = "zk_origin_prover"
version = "0.1.0"
edition = "2021"
publish = false

[dependencies]
hex = "0.4"
neptune = { version = "13", default-features = false }
pasta_curves = "0.5"
typenum = "1"
ff = "0.13"
bellpepper-core = "0.4"
nova-snark = "*"
serde = { version = "1", features = ["derive"] }
thiserror = "1"
