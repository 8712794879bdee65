[package]
name = "mpl-corenft-staking"
version = "0.1.0"
edition = "2021"
publish = false

[dependencies]
anchor-lang = "=0.31.2"
anchor-spl = { version = "=0.31.2", default-features = false, features = ["token"] }
mpl-core = { version = "=0.12.1", default-features = false, features = ["anchor"] }
mpl-token-metadata = "=5.1.1"

[dev-dependencies]
borsh = "=0.10.4"
