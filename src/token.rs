//! The mint-initialization request and the instruction that it becomes.

use vstd::prelude::*;
use crate::encoding::{all_base58_chars, parse_pubkey, pubkey_parsed, MAX_PUBKEY_TEXT_LEN};
use spl_token::solana_program::program_error::ProgramError;
use spl_token::solana_program::pubkey::Pubkey;

verus! {

#[verifier::external_type_specification]
#[verifier::external_body]
pub struct ExProgramError(ProgramError);

/// Why a mint-initialization request produced no instruction.
#[derive(Clone, Copy, Debug, PartialEq, Eq, Structural)]
pub enum FieldError {
    /// `mintAuthority` is missing or is not a base-58 public identifier.
    InvalidMintAuthority,
    /// `mint` is missing or is not a base-58 public identifier.
    InvalidMint,
    /// `decimals` does not fit in one byte.
    InvalidDecimals,
    /// The token program's instruction encoder refused the validated inputs.
    ConstructionFailed,
}

/// The request fields as they arrive, before any validation.
pub struct RawMintRequest {
    pub mint_authority: Option<String>,
    pub mint: Option<String>,
    pub decimals: Option<u64>,
}

/// A validated mint-initialization request.
#[derive(Clone, Copy, Debug)]
pub struct MintInitRequest {
    pub mint_authority: [u8; 32],
    pub mint: [u8; 32],
    pub decimals: u8,
}

/// One account that an instruction touches, with its signer and writable flags.
#[derive(Clone, Copy, Debug)]
pub struct AccountRef {
    pub pubkey: [u8; 32],
    pub is_signer: bool,
    pub is_writable: bool,
}

/// A target program, the accounts it touches in order, and opaque data.
#[derive(Debug)]
pub struct InstructionDescriptor {
    pub program_id: [u8; 32],
    pub accounts: Vec<AccountRef>,
    pub data: Vec<u8>,
}

/// The number of decimals of a mint when the request names none.
pub const DEFAULT_DECIMALS: u64 = 9;

/// The token program's identifier, TokenkegQfeZyiNwAJbNbGKPFXCWuBvf9Ss623VQ5DA.
pub open spec fn token_program_bytes() -> Seq<u8> {
    seq![
        6u8, 221, 246, 225, 215, 101, 161, 147, 217, 203, 225, 70, 206, 235, 121, 172,
        28, 180, 133, 237, 95, 91, 55, 145, 58, 140, 245, 133, 126, 255, 0, 169,
    ]
}

/// The rent sysvar's identifier, SysvarRent111111111111111111111111111111111.
pub open spec fn rent_sysvar_bytes() -> Seq<u8> {
    seq![
        6u8, 167, 213, 23, 25, 44, 92, 81, 33, 140, 201, 76, 61, 74, 241, 127,
        88, 218, 238, 8, 155, 161, 253, 68, 227, 219, 217, 138, 0, 0, 0, 0,
    ]
}

/// The accounts of "initialize mint": the mint, writable, then the rent
/// sysvar, read-only; neither signs.
pub open spec fn is_mint_init_accounts(accounts: Seq<AccountRef>, mint: Seq<u8>) -> bool {
    &&& accounts.len() == 2
    &&& accounts[0].pubkey@ == mint
    &&& !accounts[0].is_signer
    &&& accounts[0].is_writable
    &&& accounts[1].pubkey@ == rent_sysvar_bytes()
    &&& !accounts[1].is_signer
    &&& !accounts[1].is_writable
}

/// The data of "initialize mint" with no freeze authority: tag 0, the
/// decimals byte, the 32 bytes of the mint authority, and 0 for "no freeze
/// authority".
pub open spec fn mint_init_data(mint_authority: Seq<u8>, decimals: u8) -> Seq<u8> {
    seq![0u8, decimals] + mint_authority + seq![0u8]
}

/// `ix` is the "initialize mint" instruction of the token program for `req`.
pub open spec fn is_mint_init_for(ix: InstructionDescriptor, req: MintInitRequest) -> bool {
    &&& ix.program_id@ == token_program_bytes()
    &&& is_mint_init_accounts(ix.accounts@, req.mint@)
    &&& ix.data@ == mint_init_data(req.mint_authority@, req.decimals)
}

/// The identifier that an optional text field names, if any.
pub open spec fn field_pubkey(field: Option<String>) -> Option<Seq<u8>> {
    match field {
        Some(s) => pubkey_parsed(s@),
        None => None,
    }
}

/// The outcome of validating the raw fields, checked in order: mint
/// authority, mint, decimals (default 9, at most 255). On success: the
/// mint authority's bytes, the mint's bytes and the decimals.
pub open spec fn mint_request_outcome(raw: RawMintRequest) -> Result<(Seq<u8>, Seq<u8>, u8), FieldError> {
    match field_pubkey(raw.mint_authority) {
        None => Err(FieldError::InvalidMintAuthority),
        Some(auth) => match field_pubkey(raw.mint) {
            None => Err(FieldError::InvalidMint),
            Some(mint) => match raw.decimals {
                None => Ok((auth, mint, DEFAULT_DECIMALS as u8)),
                Some(d) => if d <= 255 {
                    Ok((auth, mint, d as u8))
                } else {
                    Err(FieldError::InvalidDecimals)
                },
            },
        },
    }
}

/// A text field that is plainly not a public identifier: absent, too long,
/// or with a character outside the base-58 alphabet.
pub open spec fn plainly_not_pubkey(field: Option<String>) -> bool {
    match field {
        None => true,
        Some(s) => s@.len() > MAX_PUBKEY_TEXT_LEN || !all_base58_chars(s@),
    }
}

/// `req` holds what `outcome` gives on success.
pub open spec fn request_matches(req: MintInitRequest, outcome: Result<(Seq<u8>, Seq<u8>, u8), FieldError>) -> bool {
    outcome == Ok::<(Seq<u8>, Seq<u8>, u8), FieldError>((req.mint_authority@, req.mint@, req.decimals))
}

/// Decodes an optional text field as a public identifier.
fn decode_field(field: &Option<String>) -> (r: Option<[u8; 32]>)
    ensures
        match r {
            Some(b) => field_pubkey(*field) == Some(b@),
            None => field_pubkey(*field) is None,
        },
        plainly_not_pubkey(*field) ==> r is None,
{
    match field {
        Some(s) => match parse_pubkey(s.as_str()) {
            Ok(b) => Some(b),
            Err(_) => None,
        },
        None => None,
    }
}

/// Validates the raw fields in order, the first failure deciding the error:
/// the mint authority, then the mint, then the decimals (9 when absent,
/// refused above 255).
pub fn parse_mint_request(raw: &RawMintRequest) -> (r: Result<MintInitRequest, FieldError>)
    ensures
        match r {
            Ok(req) => request_matches(req, mint_request_outcome(*raw)),
            Err(e) => mint_request_outcome(*raw) == Err::<(Seq<u8>, Seq<u8>, u8), FieldError>(e),
        },
        plainly_not_pubkey(raw.mint_authority) ==> r == Err::<MintInitRequest, FieldError>(FieldError::InvalidMintAuthority),
{
    let mint_authority = match decode_field(&raw.mint_authority) {
        Some(b) => b,
        None => return Err(FieldError::InvalidMintAuthority),
    };
    let mint = match decode_field(&raw.mint) {
        Some(b) => b,
        None => return Err(FieldError::InvalidMint),
    };
    let decimals: u8 = match raw.decimals {
        None => DEFAULT_DECIMALS as u8,
        Some(d) => if d <= 255 {
            d as u8
        } else {
            return Err(FieldError::InvalidDecimals);
        },
    };
    Ok(MintInitRequest { mint_authority, mint, decimals })
}

/// Relies on `spl_token::id()`: the identifier that spl-token declares for
/// its program, TokenkegQfeZyiNwAJbNbGKPFXCWuBvf9Ss623VQ5DA.
#[verifier::external_body]
fn token_program_id() -> (r: [u8; 32])
    ensures
        r@ == token_program_bytes(),
{
    spl_token::id().to_bytes()
}

/// Relies on `spl_token::instruction::initialize_mint` with no freeze
/// authority: it fails exactly when `program` is not spl-token's id, and
/// otherwise returns `program`, the mint then the rent sysvar as accounts,
/// and the packed `InitializeMint` data.
#[verifier::external_body]
fn initialize_mint(program: &[u8; 32], mint: &[u8; 32], authority: &[u8; 32], decimals: u8)
    -> (r: Result<InstructionDescriptor, ProgramError>)
    ensures
        r is Ok <==> program@ == token_program_bytes(),
        r matches Ok(ix) ==> {
            &&& ix.program_id@ == program@
            &&& is_mint_init_accounts(ix.accounts@, mint@)
            &&& ix.data@ == mint_init_data(authority@, decimals)
        },
{
    let ix = spl_token::instruction::initialize_mint(
        &Pubkey::new_from_array(*program),
        &Pubkey::new_from_array(*mint),
        &Pubkey::new_from_array(*authority),
        None,
        decimals,
    )?;
    let accounts = ix.accounts.iter().map(|m| AccountRef {
        pubkey: m.pubkey.to_bytes(),
        is_signer: m.is_signer,
        is_writable: m.is_writable,
    }).collect();
    Ok(InstructionDescriptor { program_id: ix.program_id.to_bytes(), accounts, data: ix.data })
}

/// Builds the token program's "initialize mint" instruction for a validated
/// request, with no freeze authority.
pub fn mint_init_instruction(req: &MintInitRequest) -> (r: Result<InstructionDescriptor, FieldError>)
    ensures
        r matches Ok(ix) && is_mint_init_for(ix, *req),
{
    let program = token_program_id();
    match initialize_mint(&program, &req.mint, &req.mint_authority, req.decimals) {
        Ok(ix) => Ok(ix),
        Err(_) => Err(FieldError::ConstructionFailed),
    }
}

/// Validates the raw request and builds its "initialize mint" instruction.
pub fn build_mint_init_instruction(raw: &RawMintRequest) -> (r: Result<InstructionDescriptor, FieldError>)
    ensures
        match mint_request_outcome(*raw) {
            Ok((auth, mint, d)) => r matches Ok(ix) && {
                &&& ix.program_id@ == token_program_bytes()
                &&& is_mint_init_accounts(ix.accounts@, mint)
                &&& ix.data@ == mint_init_data(auth, d)
            },
            Err(e) => r matches Err(f) && f == e,
        },
        plainly_not_pubkey(raw.mint_authority) ==> (r matches Err(f) && f == FieldError::InvalidMintAuthority),
{
    let req = parse_mint_request(raw)?;
    mint_init_instruction(&req)
}

} // verus!
