[package]
name = "lock-fund"
version = "0.1.0"
edition = "2021"
publish = false

[dependencies]
aes-gcm = "=0.10.3"
anchor-lang = { version = "=0.30.1", features = ["event-cpi"] }
anchor-spl = "=0.30.1"
anyhow = "=1.0.104"
bs58 = "=0.5.1"
bytemuck = { version = "=1.25.2", features = ["derive", "min_const_generics"] }
clap = "=4.6.7"
console = "=0.15.11"
dirs-next = "=2.0.0"
serde = { version = "=1.0.229", features = ["derive"] }
serde_json = "=1.0.154"
sha2 = "=0.10.9"
static_assertions = "=1.1.0"
