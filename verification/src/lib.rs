//! Deterministic one-time-pad material from a password.
//!
//! The generation flow derives a 32-byte key from a password with Argon2id
//! (`kdf`), expands it into pad bytes by XORing a ChaCha20 stream with an
//! AES-256-CTR keystream (`keystream`), and hands the bytes out in bounded
//! chunks under a 1 byte to 5 GiB budget (`generator`, `sizes`). The
//! application flow XORs a data buffer against pad bytes under one-time-pad
//! safety checks (`otp`). File handling sits outside this crate; every
//! function here works on plain values and carries its contract.

pub mod config;
pub mod generator;
pub mod kdf;
pub mod keystream;
pub mod otp;
pub mod sizes;
