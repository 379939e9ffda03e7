//! Threshold Schnorr (FROST, secp256k1 with Taproot tweaks) signing node:
//! the distributed key generation session, the signing pipeline and the
//! aggregation pipeline, over wire values made of plain bytes.

pub mod hex_codec;
pub mod wire;
pub mod identifier;
pub mod entries;
pub mod primitives;
pub mod dkg;
pub mod signing;
pub mod client;
