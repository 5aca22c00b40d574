//! Ethereum-style (20-byte, secp256k1) accounts for Substrate-family bridge relays:
//! account identifiers, signature verification by public-key recovery, and signing
//! of transactions for chains that use such accounts.

pub mod hashing;
pub mod ecdsa;
pub mod scale;

pub mod account;
pub mod address;
pub mod signature;
pub mod storage;

pub mod transaction;
pub mod chains;

pub mod calls;
pub mod bridges;
