[package]
name = "bhp_crh"
version = "0.1.0"
edition = "2021"
publish = false

[dependencies]
snarkvm-algorithms = { version = "=0.8.0", default-features = false, features = ["hash_to_curve", "crypto_hash"] }
snarkvm-curves = { version = "=0.8.0", default-features = false }
snarkvm-fields = { version = "=0.8.0", default-features = false }
snarkvm-utilities = { version = "=0.8.0" }

[dev-dependencies]
rayon = "1"
