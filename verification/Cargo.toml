[package]
name = "celophane"
version = "0.1.0"
edition = "2021"
publish = false

[dependencies]
anyhow = "=1.0.104"
ethers-contract = "=2.0.14"
ethers-core = "=2.0.14"
ethers-providers = "=2.0.14"
structopt = "=0.3.26"
tokio = { version = "=1.53.2", features = ["macros", "rt-multi-thread"] }
url = "=2.5.8"
