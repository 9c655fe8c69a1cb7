//! ML-DSA (FIPS 204) keys, signatures and their encodings.

pub mod params;
pub mod expanded;
pub mod backend;
pub mod asn;
pub mod signature;
pub mod keys;
pub mod keypair;
pub mod transcode;
