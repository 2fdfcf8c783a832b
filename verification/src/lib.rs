//! Construction of BRC-20 fungible-token payloads.
//!
//! The BRC-20 protocol is an application-layer convention that embeds small
//! JSON documents ("payloads") in inscriptions on a blockchain. This crate
//! validates BRC-20 ticker identifiers, renders the three protocol operations
//! (deploy, mint, transfer) as canonical JSON text, and wraps each payload in
//! an inscription addressed to a recipient public key.

pub mod brc20;
pub mod errors;
pub mod hash;
pub mod ordinal;
