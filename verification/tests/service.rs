use base64::engine::general_purpose::STANDARD;
use base64::Engine;
use ix_service::address::Address;
use ix_service::error::{AddressField, ApiError};
use ix_service::keypair::Keypair;
use ix_service::service::{
    create_token, keypair, keypair_response, mint_token, parse_address, send_sol, send_token,
    MintInfo, MintTokenInfo, SendSolInfo, SendTokenInfo,
};

const ALICE: &str = "2gPihUTjt3FJqf1VpidgrY5cZ6PuyMccGVwQHRfjMPZG";
const BOB: &str = "SysvarRent111111111111111111111111111111111";
const CAROL: &str = "TokenkegQfeZyiNwAJbNbGKPFXCWuBvf9Ss623VQ5DA";
const TOKEN_PROGRAM: &str = "TokenkegQfeZyiNwAJbNbGKPFXCWuBvf9Ss623VQ5DA";
const SYSTEM_PROGRAM: &str = "11111111111111111111111111111111";

fn bytes_of(text: &str) -> [u8; 32] {
    Address::decode(text).expect("a valid address").bytes
}

fn invalid_field<T>(r: Result<T, ApiError>) -> AddressField {
    match r {
        Err(ApiError::InvalidAddress { field }) => field,
        Err(other) => panic!("another error: {}", other.message()),
        Ok(_) => panic!("the request was accepted"),
    }
}

#[test]
fn parse_address_names_the_field() {
    assert_eq!(parse_address(ALICE, AddressField::To).expect("valid").bytes, bytes_of(ALICE));
    assert_eq!(invalid_field(parse_address("", AddressField::To)), AddressField::To);
    assert_eq!(invalid_field(parse_address("x", AddressField::Mint)), AddressField::Mint);
}

#[test]
fn create_token_end_to_end() {
    let info = MintInfo { mint_authority: ALICE.into(), mint: BOB.into(), decimals: 6 };
    let resp = create_token(&info).expect("accepted");
    assert!(resp.success);
    assert_eq!(resp.data.program_id, TOKEN_PROGRAM);
    let payload = STANDARD.decode(&resp.data.instruction_data).expect("base 64");
    assert_eq!(payload[0], 0);
    assert_eq!(payload[1], 6);
    assert_eq!(&payload[2..34], &bytes_of(ALICE));
    assert_eq!(payload[34], 1);
    assert_eq!(&payload[35..67], &bytes_of(ALICE));
    assert_eq!(payload.len(), 67);
    assert_eq!(resp.data.accounts.len(), 2);
    assert_eq!(resp.data.accounts[0].address.bytes, bytes_of(BOB));
    assert!(resp.data.accounts[0].is_writable && !resp.data.accounts[0].is_signer);
    assert!(!resp.data.accounts[1].is_writable && !resp.data.accounts[1].is_signer);
}

#[test]
fn create_token_checks_the_authority_first() {
    let info = MintInfo { mint_authority: "bad".into(), mint: "bad".into(), decimals: 6 };
    assert_eq!(invalid_field(create_token(&info)), AddressField::MintAuthority);
    let info = MintInfo { mint_authority: ALICE.into(), mint: "bad".into(), decimals: 6 };
    assert_eq!(invalid_field(create_token(&info)), AddressField::Mint);
}

#[test]
fn mint_token_end_to_end() {
    let info = MintTokenInfo {
        mint: ALICE.into(),
        destination: BOB.into(),
        authority: CAROL.into(),
        amount: 1_000_000,
    };
    let resp = mint_token(&info).expect("accepted");
    assert!(resp.success);
    assert_eq!(resp.data.program_id, TOKEN_PROGRAM);
    let payload = STANDARD.decode(&resp.data.instruction_data).expect("base 64");
    assert_eq!(payload, vec![7, 64, 66, 15, 0, 0, 0, 0, 0]);
    let shown: Vec<([u8; 32], bool, bool)> = resp
        .data
        .accounts
        .iter()
        .map(|a| (a.address.bytes, a.is_signer, a.is_writable))
        .collect();
    assert_eq!(
        shown,
        vec![
            (bytes_of(ALICE), false, true),
            (bytes_of(BOB), false, true),
            (bytes_of(CAROL), true, false),
        ]
    );
}

#[test]
fn mint_token_checks_authority_then_mint_then_destination() {
    let request = |mint: &str, destination: &str, authority: &str| MintTokenInfo {
        mint: mint.into(),
        destination: destination.into(),
        authority: authority.into(),
        amount: 1,
    };
    assert_eq!(invalid_field(mint_token(&request("?", "?", "?"))), AddressField::MintAuthority);
    assert_eq!(invalid_field(mint_token(&request("?", "?", ALICE))), AddressField::Mint);
    assert_eq!(invalid_field(mint_token(&request(ALICE, "?", ALICE))), AddressField::Destination);
    assert_eq!(
        mint_token(&request("?", BOB, ALICE)).err().expect("refused").message(),
        "Invalid mint"
    );
}

#[test]
fn send_sol_end_to_end() {
    let info = SendSolInfo { from: ALICE.into(), to: BOB.into(), lamports: 1000 };
    let resp = send_sol(&info).expect("accepted");
    assert!(resp.success);
    assert_eq!(resp.data.program_id, SYSTEM_PROGRAM);
    assert_eq!(resp.data.accounts, vec![ALICE.to_string(), BOB.to_string()]);
    let payload = STANDARD.decode(&resp.data.instruction_data).expect("base 64");
    assert_eq!(payload, vec![2, 0, 0, 0, 232, 3, 0, 0, 0, 0, 0, 0]);
}

#[test]
fn send_sol_with_a_bad_sender_is_refused() {
    let info = SendSolInfo { from: "not-an-address".into(), to: BOB.into(), lamports: 100 };
    let error = send_sol(&info).err().expect("refused");
    assert_eq!(error.message(), "Invalid from");
    let response = error.error_response();
    assert_eq!(response.status, 400);
    assert!(!response.body.success);
    assert_eq!(response.body.error, "Invalid from");
}

#[test]
fn send_sol_checks_the_sender_first() {
    let info = SendSolInfo { from: "".into(), to: "".into(), lamports: 1 };
    assert_eq!(invalid_field(send_sol(&info)), AddressField::From);
    let info = SendSolInfo { from: ALICE.into(), to: "".into(), lamports: 1 };
    assert_eq!(invalid_field(send_sol(&info)), AddressField::To);
    assert_eq!(send_sol(&info).err().expect("refused").message(), "Invalid to");
}

#[test]
fn send_token_end_to_end() {
    let info = SendTokenInfo {
        destination: BOB.into(),
        mint: CAROL.into(),
        owner: ALICE.into(),
        amount: 258,
    };
    let resp = send_token(&info).expect("accepted");
    assert!(resp.success);
    assert_eq!(resp.data.program_id, TOKEN_PROGRAM);
    let payload = STANDARD.decode(&resp.data.instruction_data).expect("base 64");
    assert_eq!(payload, vec![12, 2, 1, 0, 0, 0, 0, 0, 0, 6]);
    let shown: Vec<([u8; 32], bool)> =
        resp.data.accounts.iter().map(|a| (a.pubkey.bytes, a.is_signer)).collect();
    assert_eq!(
        shown,
        vec![
            (bytes_of(ALICE), false),
            (bytes_of(CAROL), false),
            (bytes_of(BOB), false),
            (bytes_of(ALICE), false),
            (bytes_of(ALICE), true),
        ]
    );
}

#[test]
fn send_token_checks_owner_then_destination_then_mint() {
    let request = |destination: &str, mint: &str, owner: &str| SendTokenInfo {
        destination: destination.into(),
        mint: mint.into(),
        owner: owner.into(),
        amount: 1,
    };
    assert_eq!(invalid_field(send_token(&request("?", "?", "?"))), AddressField::From);
    assert_eq!(invalid_field(send_token(&request("?", "?", ALICE))), AddressField::To);
    assert_eq!(invalid_field(send_token(&request(BOB, "?", ALICE))), AddressField::Mint);
    assert_eq!(
        send_token(&request(BOB, CAROL, "?")).err().expect("refused").message(),
        "Invalid from"
    );
}

#[test]
fn malformed_request_has_the_fixed_message() {
    let response = ApiError::MalformedRequest.error_response();
    assert_eq!(response.status, 400);
    assert!(!response.body.success);
    assert_eq!(response.body.error, "Invalid JSON format or structure");
}

#[test]
fn keypair_returns_address_and_secret() {
    let resp = keypair();
    assert!(resp.success);
    let address = Address::decode(&resp.data.pubkey).expect("an address");
    let secret = bs58::decode(&resp.data.secret).into_vec().expect("base 58");
    assert_eq!(secret.len(), 64);
    assert_eq!(&secret[32..], &address.bytes);
}

#[test]
fn keypairs_are_fresh() {
    let first = keypair();
    let second = keypair();
    assert_ne!(first.data.pubkey, second.data.pubkey);
    assert_ne!(first.data.secret, second.data.secret);
}

#[test]
fn generated_keypair_holds_its_address() {
    let made = Keypair::generate();
    assert_eq!(&made.secret[32..], &made.address.bytes);
    let resp = keypair_response(&made);
    assert!(resp.success);
    assert_eq!(resp.data.pubkey, made.address.encode());
    assert_eq!(resp.data.secret, made.secret_text());
}
