//! Account addresses and their text form.
//!
//! An address is 32 bytes. Its text form is the base-58 encoding of those
//! bytes, and a text is accepted as an address only if it is exactly that
//! encoding of some 32 bytes: nothing is trimmed or normalised.

use crate::base58::{
    digit_of_char, is_base58_of, lemma_bytes_determine_text, lemma_text_determines_bytes,
    lemma_text_length_of_32_bytes,
};
use solana_sdk::pubkey::Pubkey;
use std::str::FromStr;
use vstd::prelude::*;

verus! {

/// A 32-byte account or program address.
#[derive(Clone, Copy, Debug)]
pub struct Address {
    pub bytes: [u8; 32],
}

/// Why a text was not accepted as an address.
#[derive(Clone, Copy, Debug)]
pub enum DecodeError {
    /// The text is not the base-58 encoding of 32 bytes.
    InvalidAddress,
}

impl View for Address {
    type V = Seq<u8>;

    open spec fn view(&self) -> Seq<u8> {
        self.bytes@
    }
}

/// Whether `text` is the text form of some address.
pub open spec fn is_address_text(text: Seq<char>) -> bool {
    exists|bytes: Seq<u8>| bytes.len() == 32 && #[trigger] is_base58_of(text, bytes)
}

/// The bytes of the address that `text` stands for, if it stands for one.
pub open spec fn address_of_text(text: Seq<char>) -> Option<Seq<u8>> {
    if is_address_text(text) {
        Some(choose|bytes: Seq<u8>| bytes.len() == 32 && #[trigger] is_base58_of(text, bytes))
    } else {
        None
    }
}

/// Decoding inverts encoding: the text form of 32 bytes is an address
/// text, and it stands for those bytes and for no others.
pub proof fn lemma_decode_inverts_encode(bytes: Seq<u8>, text: Seq<char>)
    requires
        bytes.len() == 32,
        is_base58_of(text, bytes),
    ensures
        is_address_text(text),
        address_of_text(text) == Some(bytes),
{
    let chosen = choose|b: Seq<u8>| b.len() == 32 && #[trigger] is_base58_of(text, b);
    lemma_text_determines_bytes(text, chosen, bytes);
}

/// Encoding inverts decoding: an address text is the text form of the
/// bytes it stands for, and those bytes have no other text form.
pub proof fn lemma_encode_inverts_decode(text: Seq<char>, other: Seq<char>)
    requires
        address_of_text(text) is Some,
    ensures
        is_base58_of(text, address_of_text(text).unwrap()),
        is_base58_of(other, address_of_text(text).unwrap()) ==> other == text,
{
    let bytes = address_of_text(text).unwrap();
    if is_base58_of(other, bytes) {
        lemma_bytes_determine_text(bytes, other, text);
    }
}

/// `Pubkey::from_str` of solana-sdk. It accepts a text exactly when the text
/// is the base-58 encoding of some 32 bytes, and then returns those bytes;
/// every other text is refused, whatever the reason.
#[verifier::external_body]
fn pubkey_from_text(text: &str) -> (r: Option<[u8; 32]>)
    ensures
        match r {
            Some(bytes) => is_base58_of(text@, bytes@),
            None => !is_address_text(text@),
        },
{
    match Pubkey::from_str(text) {
        Ok(key) => Some(key.to_bytes()),
        Err(_) => None,
    }
}

/// `Pubkey::to_string` of solana-sdk: the base-58 encoding of the 32 bytes.
#[verifier::external_body]
fn pubkey_to_text(bytes: &[u8; 32]) -> (text: String)
    ensures
        is_base58_of(text@, bytes@),
{
    Pubkey::new_from_array(*bytes).to_string()
}

impl Address {
    /// The address with the given bytes.
    pub fn new(bytes: [u8; 32]) -> (addr: Address)
        ensures
            addr@ == bytes@,
    {
        Address { bytes }
    }

    /// The bytes of the address.
    pub fn to_bytes(&self) -> (bytes: [u8; 32])
        ensures
            bytes@ == self@,
    {
        self.bytes
    }

    /// Reads an address from its text form. The text is accepted exactly
    /// when it is the base-58 encoding of 32 bytes; the address then holds
    /// those bytes.
    pub fn decode(text: &str) -> (r: Result<Address, DecodeError>)
        ensures
            match r {
                Ok(addr) => address_of_text(text@) == Some(addr@),
                Err(_) => address_of_text(text@) is None,
            },
    {
        match pubkey_from_text(text) {
            Some(bytes) => {
                proof {
                    lemma_decode_inverts_encode(bytes@, text@);
                }
                Ok(Address { bytes })
            },
            None => Err(DecodeError::InvalidAddress),
        }
    }

    /// The text form of the address. Decoding it gives the address back.
    pub fn encode(&self) -> (text: String)
        ensures
            is_base58_of(text@, self@),
            address_of_text(text@) == Some(self@),
    {
        let text = pubkey_to_text(&self.bytes);
        proof {
            lemma_decode_inverts_encode(self@, text@);
        }
        text
    }
}

/// A text with a character outside the base-58 alphabet is no address.
pub proof fn lemma_foreign_character_rejected(text: Seq<char>, i: int)
    requires
        0 <= i < text.len(),
        digit_of_char(text[i]) is None,
    ensures
        address_of_text(text) is None,
{
}

/// A text of fewer than 32 or more than 44 characters is no address.
pub proof fn lemma_wrong_length_rejected(text: Seq<char>)
    requires
        text.len() < 32 || text.len() > 44,
    ensures
        address_of_text(text) is None,
{
    if is_address_text(text) {
        let bytes = choose|b: Seq<u8>| b.len() == 32 && #[trigger] is_base58_of(text, b);
        lemma_text_length_of_32_bytes(text, bytes);
    }
}

/// The empty text is no address.
pub proof fn lemma_empty_text_rejected()
    ensures
        address_of_text(Seq::<char>::empty()) is None,
{
    lemma_wrong_length_rejected(Seq::<char>::empty());
}

} // verus!
