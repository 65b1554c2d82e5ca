//! The five endpoints, from request fields to response.
//!
//! Every address field of a request is checked before anything is built,
//! in a fixed order, and the first one that is no address decides the
//! error. A response is either complete or an error: nothing is built from
//! a request with a bad field.

use crate::address::{address_of_text, Address};
use crate::error::{AddressField, ApiError, ApiErrorView};
use crate::instruction::{
    create_mint, create_mint_instruction, mint_to, mint_to_instruction, transfer_native,
    transfer_native_instruction, transfer_token, transfer_token_instruction,
};
use crate::keypair::Keypair;
use crate::response::{InstructionData, InstructionSolData, InstructionTokenData, KeypairInfo};
use vstd::prelude::*;

verus! {

/// The request to create a mint.
#[derive(Debug)]
pub struct MintInfo {
    pub mint_authority: String,
    pub mint: String,
    pub decimals: u8,
}

/// The request to mint tokens.
#[derive(Debug)]
pub struct MintTokenInfo {
    pub mint: String,
    pub destination: String,
    pub authority: String,
    pub amount: u64,
}

/// The request to transfer lamports.
#[derive(Debug)]
pub struct SendSolInfo {
    pub from: String,
    pub to: String,
    pub lamports: u64,
}

/// The request to transfer tokens.
#[derive(Debug)]
pub struct SendTokenInfo {
    pub destination: String,
    pub mint: String,
    pub owner: String,
    pub amount: u64,
}

/// The response with a new keypair.
pub struct KeypairResp {
    pub success: bool,
    pub data: KeypairInfo,
}

/// The response with a mint instruction.
#[derive(Debug)]
pub struct MintResp {
    pub success: bool,
    pub data: InstructionData,
}

/// The response with a native transfer.
#[derive(Debug)]
pub struct SendSolResp {
    pub success: bool,
    pub data: InstructionSolData,
}

/// The response with a token transfer.
#[derive(Debug)]
pub struct SendTokenResp {
    pub success: bool,
    pub data: InstructionTokenData,
}

/// The decimals that every token transfer is checked against.
pub const TOKEN_TRANSFER_DECIMALS: u8 = 6;

/// The error for a `field` whose text is no address.
pub open spec fn invalid(field: AddressField) -> ApiErrorView {
    ApiErrorView::InvalidAddress { field }
}

/// Reads the address that a request gives for `field`.
pub fn parse_address(text: &str, field: AddressField) -> (r: Result<Address, ApiError>)
    ensures
        match r {
            Ok(addr) => address_of_text(text@) == Some(addr@),
            Err(e) => address_of_text(text@) is None && e@ == invalid(field),
        },
{
    match Address::decode(text) {
        Ok(addr) => Ok(addr),
        Err(_) => Err(ApiError::InvalidAddress { field }),
    }
}

/// What a request to create a mint is answered with: the error for the
/// mint authority or else for the mint, if one of them is no address, and
/// else the instruction that initialises the mint.
pub open spec fn create_token_answer(info: MintInfo, r: Result<MintResp, ApiError>) -> bool {
    match (address_of_text(info.mint_authority@), address_of_text(info.mint@)) {
        (None, _) => r matches Err(e) && e@ == invalid(AddressField::MintAuthority),
        (Some(_), None) => r matches Err(e) && e@ == invalid(AddressField::Mint),
        (Some(authority), Some(mint)) => {
            &&& r matches Ok(resp)
            &&& resp.success
            &&& resp.data.describes(create_mint_instruction(authority, mint, info.decimals))
        },
    }
}

/// What a request to mint tokens is answered with: the error for the
/// authority, else for the mint, else for the destination, if one of them
/// is no address, and else the instruction that mints.
pub open spec fn mint_token_answer(info: MintTokenInfo, r: Result<MintResp, ApiError>) -> bool {
    match (
        address_of_text(info.authority@),
        address_of_text(info.mint@),
        address_of_text(info.destination@),
    ) {
        (None, _, _) => r matches Err(e) && e@ == invalid(AddressField::MintAuthority),
        (Some(_), None, _) => r matches Err(e) && e@ == invalid(AddressField::Mint),
        (Some(_), Some(_), None) => r matches Err(e) && e@ == invalid(AddressField::Destination),
        (Some(authority), Some(mint), Some(destination)) => {
            &&& r matches Ok(resp)
            &&& resp.success
            &&& resp.data.describes(mint_to_instruction(mint, destination, authority, info.amount))
        },
    }
}

/// What a request to transfer lamports is answered with: the error for
/// the sender or else for the receiver, if one of them is no address, and
/// else the transfer.
pub open spec fn send_sol_answer(info: SendSolInfo, r: Result<SendSolResp, ApiError>) -> bool {
    match (address_of_text(info.from@), address_of_text(info.to@)) {
        (None, _) => r matches Err(e) && e@ == invalid(AddressField::From),
        (Some(_), None) => r matches Err(e) && e@ == invalid(AddressField::To),
        (Some(from), Some(to)) => {
            &&& r matches Ok(resp)
            &&& resp.success
            &&& resp.data.describes(transfer_native_instruction(from, to, info.lamports))
        },
    }
}

/// What a request to transfer tokens is answered with: the error for the
/// owner (reported as the sender), else for the destination (reported as
/// the receiver), else for the mint, if one of them is no address, and else
/// the transfer, checked against six decimals.
pub open spec fn send_token_answer(info: SendTokenInfo, r: Result<SendTokenResp, ApiError>)
    -> bool {
    match (
        address_of_text(info.owner@),
        address_of_text(info.destination@),
        address_of_text(info.mint@),
    ) {
        (None, _, _) => r matches Err(e) && e@ == invalid(AddressField::From),
        (Some(_), None, _) => r matches Err(e) && e@ == invalid(AddressField::To),
        (Some(_), Some(_), None) => r matches Err(e) && e@ == invalid(AddressField::Mint),
        (Some(owner), Some(destination), Some(mint)) => {
            &&& r matches Ok(resp)
            &&& resp.success
            &&& resp.data.describes(
                transfer_token_instruction(
                    owner,
                    destination,
                    mint,
                    info.amount,
                    TOKEN_TRANSFER_DECIMALS,
                ),
            )
        },
    }
}

/// What a keypair request is answered with, given the keypair that was
/// made for it.
pub fn keypair_response(keypair: &Keypair) -> (resp: KeypairResp)
    ensures
        resp.success,
        resp.data.describes(*keypair),
{
    KeypairResp { success: true, data: KeypairInfo::from_keypair(keypair) }
}

/// Answers a keypair request with a fresh keypair: its address and its
/// secret bytes, of which the last 32 are the address.
pub fn keypair() -> (resp: KeypairResp)
    ensures
        resp.success,
        exists|made: Keypair| made.wf() && #[trigger] resp.data.describes(made),
{
    let made = Keypair::generate();
    let resp = keypair_response(&made);
    assert(made.wf() && resp.data.describes(made));
    resp
}

/// Answers a request to create a mint.
pub fn create_token(info: &MintInfo) -> (r: Result<MintResp, ApiError>)
    ensures
        create_token_answer(*info, r),
{
    let authority = match parse_address(info.mint_authority.as_str(), AddressField::MintAuthority) {
        Ok(addr) => addr,
        Err(e) => { return Err(e); },
    };
    let mint = match parse_address(info.mint.as_str(), AddressField::Mint) {
        Ok(addr) => addr,
        Err(e) => { return Err(e); },
    };
    match create_mint(&authority, &mint, info.decimals) {
        Ok(ix) => Ok(MintResp { success: true, data: InstructionData::from_instruction(ix) }),
        Err(e) => Err(e),
    }
}

/// Answers a request to mint tokens.
pub fn mint_token(info: &MintTokenInfo) -> (r: Result<MintResp, ApiError>)
    ensures
        mint_token_answer(*info, r),
{
    let authority = match parse_address(info.authority.as_str(), AddressField::MintAuthority) {
        Ok(addr) => addr,
        Err(e) => { return Err(e); },
    };
    let mint = match parse_address(info.mint.as_str(), AddressField::Mint) {
        Ok(addr) => addr,
        Err(e) => { return Err(e); },
    };
    let destination = match parse_address(info.destination.as_str(), AddressField::Destination) {
        Ok(addr) => addr,
        Err(e) => { return Err(e); },
    };
    match mint_to(&mint, &destination, &authority, info.amount) {
        Ok(ix) => Ok(MintResp { success: true, data: InstructionData::from_instruction(ix) }),
        Err(e) => Err(e),
    }
}

/// Answers a request to transfer lamports.
pub fn send_sol(info: &SendSolInfo) -> (r: Result<SendSolResp, ApiError>)
    ensures
        send_sol_answer(*info, r),
{
    let from = match parse_address(info.from.as_str(), AddressField::From) {
        Ok(addr) => addr,
        Err(e) => { return Err(e); },
    };
    let to = match parse_address(info.to.as_str(), AddressField::To) {
        Ok(addr) => addr,
        Err(e) => { return Err(e); },
    };
    let ix = transfer_native(&from, &to, info.lamports);
    Ok(SendSolResp { success: true, data: InstructionSolData::from_instruction(&ix) })
}

/// Answers a request to transfer tokens.
pub fn send_token(info: &SendTokenInfo) -> (r: Result<SendTokenResp, ApiError>)
    ensures
        send_token_answer(*info, r),
{
    let owner = match parse_address(info.owner.as_str(), AddressField::From) {
        Ok(addr) => addr,
        Err(e) => { return Err(e); },
    };
    let destination = match parse_address(info.destination.as_str(), AddressField::To) {
        Ok(addr) => addr,
        Err(e) => { return Err(e); },
    };
    let mint = match parse_address(info.mint.as_str(), AddressField::Mint) {
        Ok(addr) => addr,
        Err(e) => { return Err(e); },
    };
    match transfer_token(&owner, &destination, &mint, info.amount, TOKEN_TRANSFER_DECIMALS) {
        Ok(ix) => Ok(
            SendTokenResp { success: true, data: InstructionTokenData::from_instruction(&ix) },
        ),
        Err(e) => Err(e),
    }
}

} // verus!
