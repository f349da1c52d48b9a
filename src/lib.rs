//! Post-quantum key lifecycle: a sealed, rotating keystore for KEM keypairs and
//! the two-message KEM handshake that runs on top of it.

pub mod credentials;
pub mod error;
pub mod handshake;
pub mod kem;
pub mod keystore;
pub mod nonce;
pub mod pow;
pub mod ring;
pub mod sealed;
