//! The response for each endpoint.
//!
//! Addresses that a response shows as text are shown in base 58, payloads
//! in standard base 64 with padding. Each endpoint has its own shape for
//! the list of accounts.

use crate::address::Address;
use crate::base58::is_base58_of;
use crate::instruction::{AccountRef, InstructionDescriptor, InstructionView};
use crate::keypair::Keypair;
use base64::engine::general_purpose::STANDARD;
use base64::Engine;
use vstd::prelude::*;

verus! {

/// The 64 characters of standard base 64, by the value each stands for.
pub open spec fn base64_alphabet() -> Seq<char> {
    "ABCDEFGHIJKLMNOPQRSTUVWXYZabcdefghijklmnopqrstuvwxyz0123456789+/"@
}

/// Byte `j` of `bytes`, or zero past its end.
pub open spec fn byte_or_zero(bytes: Seq<u8>, j: int) -> int {
    if 0 <= j < bytes.len() {
        bytes[j] as int
    } else {
        0
    }
}

/// Character `i` of the base-64 text of `bytes`.
///
/// Three bytes make four characters of six bits each. Where the last group
/// has only one or two bytes, the missing bits are zero and the characters
/// that would hold nothing but missing bits are `=`.
pub open spec fn base64_char_at(bytes: Seq<u8>, i: int) -> char {
    let first = 3 * (i / 4);
    let b0 = byte_or_zero(bytes, first);
    let b1 = byte_or_zero(bytes, first + 1);
    let b2 = byte_or_zero(bytes, first + 2);
    if i % 4 == 0 {
        base64_alphabet()[b0 / 4]
    } else if i % 4 == 1 {
        base64_alphabet()[(b0 % 4) * 16 + b1 / 16]
    } else if i % 4 == 2 {
        if first + 1 >= bytes.len() {
            '='
        } else {
            base64_alphabet()[(b1 % 16) * 4 + b2 / 64]
        }
    } else {
        if first + 2 >= bytes.len() {
            '='
        } else {
            base64_alphabet()[b2 % 64]
        }
    }
}

/// The standard base-64 text of `bytes`, with padding.
pub open spec fn base64_text(bytes: Seq<u8>) -> Seq<char> {
    Seq::new((4 * ((bytes.len() + 2) / 3)) as nat, |i: int| base64_char_at(bytes, i))
}

/// `Engine::encode` of base64 on its `STANDARD` engine: the standard
/// alphabet, with padding.
#[verifier::external_body]
fn base64_standard(bytes: &Vec<u8>) -> (text: String)
    ensures
        text@ == base64_text(bytes@),
{
    STANDARD.encode(bytes)
}

/// The payload of an instruction as the response shows it.
pub fn encode_payload(data: &Vec<u8>) -> (text: String)
    ensures
        text@ == base64_text(data@),
{
    base64_standard(data)
}

/// The response data for an instruction, with every account's flags.
#[derive(Debug)]
pub struct InstructionData {
    pub program_id: String,
    pub accounts: Vec<AccountRef>,
    pub instruction_data: String,
}

/// One account of a token transfer as the response shows it.
#[derive(Clone, Copy, Debug)]
pub struct AccountTokenData {
    pub pubkey: Address,
    pub is_signer: bool,
}

/// The response data for a token transfer.
#[derive(Debug)]
pub struct InstructionTokenData {
    pub program_id: String,
    pub accounts: Vec<AccountTokenData>,
    pub instruction_data: String,
}

/// The response data for a native transfer: the accounts are shown as
/// texts, and only the first two of them.
#[derive(Debug)]
pub struct InstructionSolData {
    pub program_id: String,
    pub accounts: Vec<String>,
    pub instruction_data: String,
}

/// The response data for a new keypair.
pub struct KeypairInfo {
    pub pubkey: String,
    pub secret: String,
}

/// How many accounts a native transfer's response shows at most.
pub const SHOWN_TRANSFER_ACCOUNTS: usize = 2;

impl InstructionData {
    /// Whether this is the response data for `ix`: the program as text,
    /// the accounts as they are, the payload in base 64.
    pub open spec fn describes(&self, ix: InstructionView) -> bool {
        &&& is_base58_of(self.program_id@, ix.program_id)
        &&& self.accounts@.len() == ix.accounts.len()
        &&& forall|i: int| 0 <= i < ix.accounts.len() ==> (#[trigger] self.accounts@[i])@ == ix.accounts[i]
        &&& self.instruction_data@ == base64_text(ix.data)
    }

    /// The response data for `ix`.
    pub fn from_instruction(ix: InstructionDescriptor) -> (data: InstructionData)
        ensures
            data.describes(ix@),
    {
        let program_id = ix.program_id.encode();
        let instruction_data = encode_payload(&ix.data);
        InstructionData { program_id, accounts: ix.accounts, instruction_data }
    }
}

impl InstructionTokenData {
    /// Whether this is the response data for `ix`: the program as text,
    /// each account with its signer flag, the payload in base 64.
    pub open spec fn describes(&self, ix: InstructionView) -> bool {
        &&& is_base58_of(self.program_id@, ix.program_id)
        &&& self.accounts@.len() == ix.accounts.len()
        &&& forall|i: int|
            0 <= i < ix.accounts.len() ==> {
                &&& (#[trigger] self.accounts@[i]).pubkey@ == ix.accounts[i].address
                &&& self.accounts@[i].is_signer == ix.accounts[i].is_signer
            }
        &&& self.instruction_data@ == base64_text(ix.data)
    }

    /// The response data for `ix`.
    pub fn from_instruction(ix: &InstructionDescriptor) -> (data: InstructionTokenData)
        ensures
            data.describes(ix@),
    {
        let mut accounts: Vec<AccountTokenData> = Vec::new();
        let mut i: usize = 0;
        while i < ix.accounts.len()
            invariant
                i <= ix.accounts@.len(),
                accounts@.len() == i,
                forall|k: int|
                    0 <= k < i ==> {
                        &&& (#[trigger] accounts@[k]).pubkey@ == ix.accounts@[k].address@
                        &&& accounts@[k].is_signer == ix.accounts@[k].is_signer
                    },
            decreases ix.accounts@.len() - i,
        {
            let account = ix.accounts[i];
            accounts.push(AccountTokenData { pubkey: account.address, is_signer: account.is_signer });
            i += 1;
        }
        InstructionTokenData {
            program_id: ix.program_id.encode(),
            accounts,
            instruction_data: encode_payload(&ix.data),
        }
    }
}

impl InstructionSolData {
    /// Whether this is the response data for `ix`: the program as text,
    /// the first two accounts as texts, the payload in base 64.
    pub open spec fn describes(&self, ix: InstructionView) -> bool {
        &&& is_base58_of(self.program_id@, ix.program_id)
        &&& self.accounts@.len() == if ix.accounts.len() < 2 {
            ix.accounts.len()
        } else {
            2
        }
        &&& forall|i: int|
            0 <= i < self.accounts@.len() ==> is_base58_of(
                (#[trigger] self.accounts@[i])@,
                ix.accounts[i].address,
            )
        &&& self.instruction_data@ == base64_text(ix.data)
    }

    /// The response data for `ix`.
    pub fn from_instruction(ix: &InstructionDescriptor) -> (data: InstructionSolData)
        ensures
            data.describes(ix@),
    {
        let mut accounts: Vec<String> = Vec::new();
        let mut i: usize = 0;
        while i < ix.accounts.len() && i < SHOWN_TRANSFER_ACCOUNTS
            invariant
                i <= ix.accounts@.len(),
                i <= 2,
                accounts@.len() == i,
                forall|k: int|
                    0 <= k < i ==> is_base58_of(
                        (#[trigger] accounts@[k])@,
                        ix.accounts@[k].address@,
                    ),
            decreases ix.accounts@.len() - i,
        {
            let text = ix.accounts[i].address.encode();
            accounts.push(text);
            i += 1;
        }
        InstructionSolData {
            program_id: ix.program_id.encode(),
            accounts,
            instruction_data: encode_payload(&ix.data),
        }
    }
}

impl KeypairInfo {
    /// Whether this is the response data for `keypair`: its address and
    /// its 64 secret bytes, both in base 58.
    pub open spec fn describes(&self, keypair: Keypair) -> bool {
        &&& is_base58_of(self.pubkey@, keypair.address@)
        &&& is_base58_of(self.secret@, keypair.secret@)
    }

    /// The response data for `keypair`.
    pub fn from_keypair(keypair: &Keypair) -> (info: KeypairInfo)
        ensures
            info.describes(*keypair),
    {
        KeypairInfo { pubkey: keypair.address.encode(), secret: keypair.secret_text() }
    }
}

} // verus!
