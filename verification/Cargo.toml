[package]
name = "aurora"
version = "0.12.0"
edition = "2021"
publish = false

[dependencies]
anyhow = "=1.0.104"
log = "=0.4.35"
env_logger = "=0.11.11"
itertools = "=0.15.0"
libcrux-kem = "=0.0.8"
mldsa-native-rs = "=0.0.1-alpha.6"
pqcrypto-mldsa = { version = "=0.1.2", default-features = false, features = ["std"] }
pqcrypto-traits = "=0.3.5"
ml-dsa = "=0.1.2"
pkcs8 = "=0.11.0"
asn1 = "=0.24.1"
pem = "=4.0.0"
rand = "=0.10.3"
signature = "=3.0.0"

[dev-dependencies]
wycheproof = "=0.7.0"
