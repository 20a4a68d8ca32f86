[package]
name = "cargo_preflight"
version = "0.1.0"
edition = "2021"
publish = false

[dependencies]
anyhow = "=1.0.104"
cargo-shear = "=1.11.2"
clap = "=4.6.7"
clap-cargo = "=0.19.0"
colored = "=3.1.1"
confy = "=2.0.0"
dirs = "=7.0.0"
fuzzy-matcher = "=0.3.7"
gag = "=1.0.0"
git2 = { version = "=0.21.0", default-features = false }
inquire = "=0.9.4"
ripsecrets = "=0.1.11"
serde = { version = "=1.0.229", features = ["derive"] }
tabled = "=0.22.0"
termcolor = "=1.4.1"
thiserror = "=2.0.21"
