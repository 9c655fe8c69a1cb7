//! A post-quantum OpenSSL provider core: key management, encodings and
//! registries for ML-DSA signatures and the X25519MLKEM768 hybrid KEM.

pub mod error;
pub mod hex;
pub mod built_info;
pub mod der;
pub mod pkix;
pub mod random;
pub mod keymgmt;
pub mod signature;
pub mod adapters;
pub mod kem;
pub mod mldsa;
pub mod wycheproof;
pub mod provider;
