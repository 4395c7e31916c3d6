[package]
name = "print_maker"
version = "0.1.0"
edition = "2021"
publish = false

[dependencies]
anchor-lang = "0.24"
anchor-spl = "0.24"
spl-token = "3"
metaplex-token-metadata = "0.0.1"
