//! Builds ready-to-sign Solana instruction payloads from validated requests.
//!
//! Every step from request fields to response fields is a plain function:
//! addresses are decoded from their base-58 text, an instruction descriptor
//! is built for the requested operation, and the descriptor is encoded into
//! the response. Nothing is signed or submitted.

pub mod address;
pub mod base58;
pub mod error;
pub mod instruction;
pub mod keypair;
pub mod response;
pub mod service;
