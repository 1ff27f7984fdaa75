//! Secure-channel establishment for a two-party voice call: ring/busy
//! signaling, ephemeral elliptic-curve Diffie-Hellman key exchange, and
//! per-direction nonce negotiation that seeds two independent stream ciphers.

pub mod cipher;
pub mod client;
pub mod errors;
pub mod key_exchange;
pub mod session;
