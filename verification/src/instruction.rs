//! Instruction descriptors and the four builders.
//!
//! A descriptor names the program that runs the instruction, the accounts
//! it touches in the order the program expects them, and the payload. Each
//! builder's result is stated in full by a specification function: the
//! program, every account with its flags, and every byte of the payload.

use crate::address::Address;
use crate::error::{ApiError, ApiErrorView, Operation};
use solana_sdk::pubkey::Pubkey;
use vstd::prelude::*;

verus! {

/// One account of an instruction and the role it plays there.
#[derive(Clone, Copy, Debug)]
pub struct AccountRef {
    pub address: Address,
    pub is_signer: bool,
    pub is_writable: bool,
}

/// An `AccountRef` with its address as a sequence of bytes.
pub struct AccountRefView {
    pub address: Seq<u8>,
    pub is_signer: bool,
    pub is_writable: bool,
}

/// An instruction that is ready to be put into a transaction.
#[derive(Debug)]
pub struct InstructionDescriptor {
    pub program_id: Address,
    pub accounts: Vec<AccountRef>,
    pub data: Vec<u8>,
}

/// An `InstructionDescriptor` as sequences.
pub struct InstructionView {
    pub program_id: Seq<u8>,
    pub accounts: Seq<AccountRefView>,
    pub data: Seq<u8>,
}

impl View for AccountRef {
    type V = AccountRefView;

    open spec fn view(&self) -> AccountRefView {
        AccountRefView {
            address: self.address@,
            is_signer: self.is_signer,
            is_writable: self.is_writable,
        }
    }
}

impl View for InstructionDescriptor {
    type V = InstructionView;

    open spec fn view(&self) -> InstructionView {
        InstructionView {
            program_id: self.program_id@,
            accounts: Seq::new(self.accounts@.len(), |i: int| self.accounts@[i]@),
            data: self.data@,
        }
    }
}

impl AccountRef {
    /// The account `address` with the given flags.
    pub fn new(address: Address, is_signer: bool, is_writable: bool) -> (account: AccountRef)
        ensures
            account@ == writable_or_not(address@, is_signer, is_writable),
    {
        AccountRef { address, is_signer, is_writable }
    }
}

/// The account `address` with the given flags.
pub open spec fn writable_or_not(address: Seq<u8>, is_signer: bool, is_writable: bool)
    -> AccountRefView {
    AccountRefView { address, is_signer, is_writable }
}

/// An account that the instruction may change.
pub open spec fn writable(address: Seq<u8>, is_signer: bool) -> AccountRefView {
    AccountRefView { address, is_signer, is_writable: true }
}

/// An account that the instruction only reads.
pub open spec fn readonly(address: Seq<u8>, is_signer: bool) -> AccountRefView {
    AccountRefView { address, is_signer, is_writable: false }
}

/// The address of the system program: 32 zero bytes.
pub open spec fn system_program_id() -> Seq<u8> {
    Seq::new(32, |i: int| 0u8)
}

/// The address of the token program,
/// `TokenkegQfeZyiNwAJbNbGKPFXCWuBvf9Ss623VQ5DA`.
pub open spec fn token_program_id() -> Seq<u8> {
    seq![
        6u8, 221, 246, 225, 215, 101, 161, 147, 217, 203, 225, 70, 206, 235, 121, 172,
        28, 180, 133, 237, 95, 91, 55, 145, 58, 140, 245, 133, 126, 255, 0, 169,
    ]
}

/// The address of the rent sysvar,
/// `SysvarRent111111111111111111111111111111111`.
pub open spec fn rent_sysvar_id() -> Seq<u8> {
    seq![
        6u8, 167, 213, 23, 25, 44, 92, 81, 33, 140, 201, 76, 61, 74, 241, 127,
        88, 218, 238, 8, 155, 161, 253, 68, 227, 219, 217, 138, 0, 0, 0, 0,
    ]
}

/// The eight bytes of `value`, least significant first.
pub open spec fn le_bytes(value: u64) -> Seq<u8> {
    Seq::new(8, |i: int| ((value as int / pow256(i as nat)) % 256) as u8)
}

/// 256 to the power `n`.
pub open spec fn pow256(n: nat) -> int
    decreases n,
{
    if n == 0 {
        1
    } else {
        256 * pow256((n - 1) as nat)
    }
}

/// The token program's number for "initialize mint".
pub const INITIALIZE_MINT: u8 = 0;

/// The token program's number for "mint to".
pub const MINT_TO: u8 = 7;

/// The token program's number for "transfer checked".
pub const TRANSFER_CHECKED: u8 = 12;

/// The system program's number for "transfer".
pub const SYSTEM_TRANSFER: u8 = 2;

/// The instruction that initialises `mint` with `decimals` decimals and
/// with `mint_authority` as both its mint authority and its freeze
/// authority.
///
/// The payload is the instruction number, the decimals, the mint
/// authority, a byte 1 that says a freeze authority follows, and the freeze
/// authority.
pub open spec fn create_mint_instruction(mint_authority: Seq<u8>, mint: Seq<u8>, decimals: u8)
    -> InstructionView {
    InstructionView {
        program_id: token_program_id(),
        accounts: seq![writable(mint, false), readonly(rent_sysvar_id(), false)],
        data: seq![INITIALIZE_MINT, decimals] + mint_authority + seq![1u8] + mint_authority,
    }
}

/// The instruction that mints `amount` base units of `mint` into
/// `destination`, authorised by the signature of `authority` alone.
pub open spec fn mint_to_instruction(
    mint: Seq<u8>,
    destination: Seq<u8>,
    authority: Seq<u8>,
    amount: u64,
) -> InstructionView {
    InstructionView {
        program_id: token_program_id(),
        accounts: seq![writable(mint, false), writable(destination, false), readonly(authority, true)],
        data: seq![MINT_TO] + le_bytes(amount),
    }
}

/// The instruction that moves `lamports` lamports from `from` to `to`.
///
/// The payload is the instruction number as four bytes, least significant
/// first, and the amount.
pub open spec fn transfer_native_instruction(from: Seq<u8>, to: Seq<u8>, lamports: u64)
    -> InstructionView {
    InstructionView {
        program_id: system_program_id(),
        accounts: seq![writable(from, true), writable(to, false)],
        data: seq![SYSTEM_TRANSFER, 0u8, 0u8, 0u8] + le_bytes(lamports),
    }
}

/// The instruction that moves `amount` base units of `mint` out of the
/// account `source_owner` into `destination`, checked against `decimals`.
///
/// `source_owner` is the source account and its authority, and is listed
/// once more as the one signer.
pub open spec fn transfer_token_instruction(
    source_owner: Seq<u8>,
    destination: Seq<u8>,
    mint: Seq<u8>,
    amount: u64,
    decimals: u8,
) -> InstructionView {
    InstructionView {
        program_id: token_program_id(),
        accounts: seq![
            writable(source_owner, false),
            readonly(mint, false),
            writable(destination, false),
            readonly(source_owner, false),
            readonly(source_owner, true),
        ],
        data: seq![TRANSFER_CHECKED] + le_bytes(amount) + seq![decimals],
    }
}

/// The instruction in a builder's answer, if it holds one.
pub open spec fn instruction_built(built: Result<InstructionDescriptor, String>) -> Option<
    InstructionView,
> {
    match built {
        Ok(ix) => Some(ix@),
        Err(_) => None,
    }
}

/// `initialize_mint` of spl-token, for the token program itself and with
/// the mint authority as the freeze authority. The builder refuses only a
/// program other than the token program, so here it returns the
/// instruction.
#[verifier::external_body]
fn token_initialize_mint(
    mint_authority: &Address,
    mint: &Address,
    decimals: u8,
) -> (built: Result<InstructionDescriptor, String>)
    ensures
        instruction_built(built) == Some(
            create_mint_instruction(mint_authority@, mint@, decimals),
        ),
{
    let authority = Pubkey::from(mint_authority.bytes);
    let mint = Pubkey::from(mint.bytes);
    match spl_token::instruction::initialize_mint(&spl_token::id(), &mint, &authority, Some(&authority), decimals) {
        Ok(ix) => Ok(InstructionDescriptor {
            program_id: Address::new(ix.program_id.to_bytes()),
            accounts: ix.accounts.iter().map(|m| AccountRef::new(Address::new(m.pubkey.to_bytes()), m.is_signer, m.is_writable)).collect(),
            data: ix.data,
        }),
        Err(e) => Err(e.to_string()),
    }
}

/// `mint_to` of spl-token, for the token program itself and with no
/// signers besides the authority. The builder refuses only a program other
/// than the token program, so here it returns the instruction.
#[verifier::external_body]
fn token_mint_to(
    mint: &Address,
    destination: &Address,
    authority: &Address,
    amount: u64,
) -> (built: Result<InstructionDescriptor, String>)
    ensures
        instruction_built(built) == Some(
            mint_to_instruction(mint@, destination@, authority@, amount),
        ),
{
    let (mint, destination) = (Pubkey::from(mint.bytes), Pubkey::from(destination.bytes));
    let authority = Pubkey::from(authority.bytes);
    match spl_token::instruction::mint_to(&spl_token::id(), &mint, &destination, &authority, &[], amount) {
        Ok(ix) => Ok(InstructionDescriptor {
            program_id: Address::new(ix.program_id.to_bytes()),
            accounts: ix.accounts.iter().map(|m| AccountRef::new(Address::new(m.pubkey.to_bytes()), m.is_signer, m.is_writable)).collect(),
            data: ix.data,
        }),
        Err(e) => Err(e.to_string()),
    }
}

/// `transfer` of solana-system-interface.
#[verifier::external_body]
fn system_transfer(from: &Address, to: &Address, lamports: u64) -> (ix: InstructionDescriptor)
    ensures
        ix@ == transfer_native_instruction(from@, to@, lamports),
{
    let ix = solana_system_interface::instruction::transfer(&Pubkey::from(from.bytes), &Pubkey::from(to.bytes), lamports);
    InstructionDescriptor {
        program_id: Address::new(ix.program_id.to_bytes()),
        accounts: ix.accounts.iter().map(|m| AccountRef::new(Address::new(m.pubkey.to_bytes()), m.is_signer, m.is_writable)).collect(),
        data: ix.data,
    }
}

/// `transfer_checked` of spl-token, for the token program itself, with the
/// owner as source account and authority and as the one listed signer. The
/// builder refuses only a program other than the token program, so here it
/// returns the instruction.
#[verifier::external_body]
fn token_transfer_checked(
    source_owner: &Address,
    destination: &Address,
    mint: &Address,
    amount: u64,
    decimals: u8,
) -> (built: Result<InstructionDescriptor, String>)
    ensures
        instruction_built(built) == Some(
            transfer_token_instruction(source_owner@, destination@, mint@, amount, decimals),
        ),
{
    let (owner, token) = (Pubkey::from(source_owner.bytes), Pubkey::from(mint.bytes));
    let target = Pubkey::from(destination.bytes);
    match spl_token::instruction::transfer_checked(&spl_token::id(), &owner, &token, &target, &owner, &[&owner], amount, decimals) {
        Ok(ix) => Ok(InstructionDescriptor {
            program_id: Address::new(ix.program_id.to_bytes()),
            accounts: ix.accounts.iter().map(|m| AccountRef::new(Address::new(m.pubkey.to_bytes()), m.is_signer, m.is_writable)).collect(),
            data: ix.data,
        }),
        Err(e) => Err(e.to_string()),
    }
}

/// Turns a builder's answer into the library's result: the instruction
/// unchanged, or a build failure of `operation` with the builder's reason.
pub fn build_outcome(
    built: Result<InstructionDescriptor, String>,
    operation: Operation,
) -> (r: Result<InstructionDescriptor, ApiError>)
    ensures
        match built {
            Ok(ix) => r == Ok::<InstructionDescriptor, ApiError>(ix),
            Err(reason) => r matches Err(e) && e@ == (ApiErrorView::InstructionBuildFailed {
                operation,
                reason: reason@,
            }),
        },
{
    match built {
        Ok(ix) => Ok(ix),
        Err(reason) => Err(ApiError::InstructionBuildFailed { operation, reason }),
    }
}

/// Builds the instruction that initialises `mint` with `decimals` decimals;
/// `mint_authority` becomes both its mint authority and its freeze
/// authority.
pub fn create_mint(
    mint_authority: &Address,
    mint: &Address,
    decimals: u8,
) -> (r: Result<InstructionDescriptor, ApiError>)
    ensures
        r matches Ok(ix) && ix@ == create_mint_instruction(mint_authority@, mint@, decimals),
{
    build_outcome(token_initialize_mint(mint_authority, mint, decimals), Operation::CreateMint)
}

/// Builds the instruction that mints `amount` base units of `mint` into
/// `destination`, authorised by `authority`.
pub fn mint_to(
    mint: &Address,
    destination: &Address,
    authority: &Address,
    amount: u64,
) -> (r: Result<InstructionDescriptor, ApiError>)
    ensures
        r matches Ok(ix) && ix@ == mint_to_instruction(mint@, destination@, authority@, amount),
{
    build_outcome(token_mint_to(mint, destination, authority, amount), Operation::MintTo)
}

/// Builds the instruction that moves `lamports` lamports from `from` to
/// `to`.
pub fn transfer_native(from: &Address, to: &Address, lamports: u64) -> (ix: InstructionDescriptor)
    ensures
        ix@ == transfer_native_instruction(from@, to@, lamports),
{
    system_transfer(from, to, lamports)
}

/// Builds the instruction that moves `amount` base units of `mint` from
/// the account `source_owner` to `destination`, checked against `decimals`.
pub fn transfer_token(
    source_owner: &Address,
    destination: &Address,
    mint: &Address,
    amount: u64,
    decimals: u8,
) -> (r: Result<InstructionDescriptor, ApiError>)
    ensures
        r matches Ok(ix) && ix@ == transfer_token_instruction(
            source_owner@,
            destination@,
            mint@,
            amount,
            decimals,
        ),
{
    build_outcome(
        token_transfer_checked(source_owner, destination, mint, amount, decimals),
        Operation::TransferToken,
    )
}

/// A native transfer is determined by its inputs: two instructions built
/// from the same sender, receiver and amount are the same, byte for byte.
pub proof fn lemma_transfer_native_deterministic(
    first: InstructionView,
    second: InstructionView,
    from: Seq<u8>,
    to: Seq<u8>,
    lamports: u64,
)
    requires
        first == transfer_native_instruction(from, to, lamports),
        second == transfer_native_instruction(from, to, lamports),
    ensures
        first.data == second.data,
        first.accounts == second.accounts,
        first.program_id == second.program_id,
{
}

/// A mint instruction is determined by its inputs: two instructions built
/// from the same mint, destination, authority and amount are the same, byte
/// for byte.
pub proof fn lemma_mint_to_deterministic(
    first: InstructionView,
    second: InstructionView,
    mint: Seq<u8>,
    destination: Seq<u8>,
    authority: Seq<u8>,
    amount: u64,
)
    requires
        first == mint_to_instruction(mint, destination, authority, amount),
        second == mint_to_instruction(mint, destination, authority, amount),
    ensures
        first.data == second.data,
        first.accounts == second.accounts,
        first.program_id == second.program_id,
{
}

/// The payload of a native transfer depends on the amount alone and has
/// twelve bytes; that of a mint instruction depends on the amount alone and
/// has nine.
pub proof fn lemma_payload_depends_on_amount(
    from: Seq<u8>,
    to: Seq<u8>,
    other_from: Seq<u8>,
    other_to: Seq<u8>,
    mint: Seq<u8>,
    other_mint: Seq<u8>,
    amount: u64,
)
    ensures
        transfer_native_instruction(from, to, amount).data == transfer_native_instruction(
            other_from,
            other_to,
            amount,
        ).data,
        transfer_native_instruction(from, to, amount).data.len() == 12,
        mint_to_instruction(mint, from, to, amount).data == mint_to_instruction(
            other_mint,
            other_from,
            other_to,
            amount,
        ).data,
        mint_to_instruction(mint, from, to, amount).data.len() == 9,
{
}

/// A native transfer lists the sender, who signs and is debited, and then
/// the receiver, who is credited and does not sign.
pub proof fn lemma_transfer_native_accounts(from: Seq<u8>, to: Seq<u8>, lamports: u64)
    ensures
        transfer_native_instruction(from, to, lamports).accounts.len() == 2,
        transfer_native_instruction(from, to, lamports).accounts[0] == writable(from, true),
        transfer_native_instruction(from, to, lamports).accounts[1] == writable(to, false),
{
}

} // verus!
