//! Validation, decoding and instruction building for a small set of Solana
//! operations: keypair generation, message signing and verification, and the
//! instructions for creating a token mint, minting, and transferring tokens or
//! lamports.

pub mod codec;
pub mod error;
pub mod keys;
pub mod dtos;
pub mod instruction;
pub mod response;
pub mod validate;
pub mod handlers;
pub mod laws;
