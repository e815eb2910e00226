[package]
name = "rewards_program"
version = "0.1.0"
edition = "2021"
publish = false

[dependencies]
const-crypto = "=0.3.0"
pinocchio = "=0.12.0"
pinocchio-token = "=0.8.0"
pinocchio-token-2022 = "=0.5.0"
pinocchio-system = "=0.7.0"
pinocchio-associated-token-account = "=0.5.0"
solana-address = { version = "=2.9.0", features = ["curve25519"] }
solana-security-txt = "=1.1.3"
spl-token-2022 = { version = "=12.0.0", default-features = false }
