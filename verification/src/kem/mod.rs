//! Key encapsulation: the encapsulation traits, the `libcrux-kem`
//! primitives, and the X25519MLKEM768 hybrid built from them.

pub mod traits;
pub mod backend;
pub mod x25519mlkem768;
pub mod functions;
