//! Fresh keypairs.

use crate::address::Address;
use crate::base58::is_base58_of;
use solana_sdk::signer::Signer;
use vstd::prelude::*;

verus! {

/// A signing key and the address that belongs to it.
///
/// The 64 secret bytes are the private key followed by the public key, and
/// the public key is the address.
pub struct Keypair {
    pub secret: [u8; 64],
    pub address: Address,
}

/// `Keypair::new` of solana-sdk, with the new keypair's `to_bytes` and
/// `pubkey`. The key is random, so nothing is said of its value; whatever
/// it is, the last 32 of the 64 bytes are the public key.
#[verifier::external_body]
fn new_keypair() -> (keypair: Keypair)
    ensures
        keypair.wf(),
{
    let fresh = solana_sdk::signature::Keypair::new();
    Keypair { secret: fresh.to_bytes(), address: Address::new(fresh.pubkey().to_bytes()) }
}

/// `bs58::encode(..).into_string()` of bs58: the base-58 encoding of the
/// bytes.
#[verifier::external_body]
fn base58_of_secret(secret: &[u8; 64]) -> (text: String)
    ensures
        is_base58_of(text@, secret@),
{
    bs58::encode(secret).into_string()
}

impl Keypair {
    /// Whether the address is the public half of the secret bytes.
    pub open spec fn wf(&self) -> bool {
        self.address@ == self.secret@.subrange(32, 64)
    }

    /// A keypair from the system's random source.
    pub fn generate() -> (keypair: Keypair)
        ensures
            keypair.wf(),
    {
        new_keypair()
    }

    /// The 64 secret bytes in base 58.
    pub fn secret_text(&self) -> (text: String)
        ensures
            is_base58_of(text@, self.secret@),
    {
        base58_of_secret(&self.secret)
    }
}

} // verus!
