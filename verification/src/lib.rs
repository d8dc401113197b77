//! Groth16 proof-submission handling over the BN254 curve: a fixed byte
//! layout for proof payloads, a decoder that enforces that layout before any
//! cryptography runs, a registry of compiled-in verifying keys, and an
//! adapter that normalises the pairing check's result into a three-way
//! outcome (valid / invalid / error).

pub mod codec;
pub mod handler;
pub mod outcome;
pub mod pairing;
pub mod registry;

