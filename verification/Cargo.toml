[package]
name = "ned_finance_wallet"
version = "0.1.0"
edition = "2021"
publish = false

[dependencies]
anchor-lang = { version = "=0.28.0", features = ["init-if-needed"] }
anchor-spl = { version = "=0.28.0", default-features = false, features = ["token", "associated_token"] }
mercurial-vault = { version = "=0.5.0", features = ["cpi"] }
bytemuck = { version = "=1.25.2", features = ["derive", "min_const_generics"] }
