[package]
name = "chimera_swap"
version = "0.1.0"
edition = "2021"
publish = false

[dependencies]
bitcoin = "*"
borsh = { version = "*", features = ["derive"] }
arch_program = "*"
