//! Response envelopes for the token endpoint: the status, the success flag,
//! and the rendered instruction, or empty data on failure.

use vstd::prelude::*;
use crate::encoding::{base58_encode, base58_of, pubkey_text, pubkey_to_text};
use crate::token::{
    build_mint_init_instruction, is_mint_init_accounts, mint_init_data, mint_request_outcome,
    plainly_not_pubkey, rent_sysvar_bytes, token_program_bytes, AccountRef, FieldError,
    InstructionDescriptor, RawMintRequest,
};

verus! {

pub const STATUS_OK: u16 = 200;
pub const STATUS_BAD_REQUEST: u16 = 400;
pub const STATUS_INTERNAL_ERROR: u16 = 500;

/// An account reference as text: its base-58 identifier and its flags.
pub struct AccountMetaData {
    pub pubkey: String,
    pub is_signer: bool,
    pub is_writable: bool,
}

/// An instruction as text: program, accounts in order, base-58 data.
pub struct TokenData {
    pub program_id: String,
    pub accounts: Vec<AccountMetaData>,
    pub instruction_data: String,
}

/// The envelope of the token endpoint.
pub struct TokenResponse {
    pub success: bool,
    pub data: TokenData,
}

impl TokenData {
    /// No text and no account: what a failure carries.
    pub open spec fn is_empty(&self) -> bool {
        &&& self.program_id@.len() == 0
        &&& self.accounts@.len() == 0
        &&& self.instruction_data@.len() == 0
    }

    pub fn empty() -> (r: TokenData)
        ensures
            r.is_empty(),
    {
        TokenData { program_id: String::new(), accounts: Vec::new(), instruction_data: String::new() }
    }
}

impl TokenResponse {
    /// A failed response carries empty data.
    pub open spec fn wf(&self) -> bool {
        !self.success ==> self.data.is_empty()
    }
}

/// The status of a failure: the caller's fault but for a refusal by the
/// instruction encoder, which is an internal error.
pub open spec fn status_of(e: FieldError) -> u16 {
    match e {
        FieldError::ConstructionFailed => STATUS_INTERNAL_ERROR,
        _ => STATUS_BAD_REQUEST,
    }
}

pub fn status_for(e: FieldError) -> (r: u16)
    ensures
        r == status_of(e),
{
    match e {
        FieldError::ConstructionFailed => STATUS_INTERNAL_ERROR,
        _ => STATUS_BAD_REQUEST,
    }
}

/// `m` shows `a`: the identifier's text and the same flags.
pub open spec fn shows_account(m: AccountMetaData, a: AccountRef) -> bool {
    &&& m.pubkey@ == pubkey_text(a.pubkey@)
    &&& m.is_signer == a.is_signer
    &&& m.is_writable == a.is_writable
}

/// `d` shows `ix`: each identifier as its text, the accounts in the same
/// order, the data in base 58.
pub open spec fn shows_instruction(d: TokenData, ix: InstructionDescriptor) -> bool {
    &&& d.program_id@ == pubkey_text(ix.program_id@)
    &&& d.accounts@.len() == ix.accounts@.len()
    &&& forall|i: int| 0 <= i < d.accounts@.len() ==> shows_account(#[trigger] d.accounts@[i], ix.accounts@[i])
    &&& d.instruction_data@ == base58_of(ix.data@)
}

/// `d` shows the token program's "initialize mint" instruction for the mint
/// authority `auth`, the mint `mint` and `decimals`.
pub open spec fn shows_mint_init(d: TokenData, auth: Seq<u8>, mint: Seq<u8>, decimals: u8) -> bool {
    &&& d.program_id@ == pubkey_text(token_program_bytes())
    &&& d.accounts@.len() == 2
    &&& d.accounts@[0].pubkey@ == pubkey_text(mint)
    &&& !d.accounts@[0].is_signer
    &&& d.accounts@[0].is_writable
    &&& d.accounts@[1].pubkey@ == pubkey_text(rent_sysvar_bytes())
    &&& !d.accounts@[1].is_signer
    &&& !d.accounts@[1].is_writable
    &&& d.instruction_data@ == base58_of(mint_init_data(auth, decimals))
}

/// Rendering the "initialize mint" instruction is deterministic: two
/// renderings for the same mint authority, mint and decimals have the same
/// program text, the same accounts in the same order with the same flags, and
/// the same instruction data text.
pub proof fn lemma_mint_init_deterministic(
    d1: TokenData,
    d2: TokenData,
    auth: Seq<u8>,
    mint: Seq<u8>,
    decimals: u8,
)
    requires
        shows_mint_init(d1, auth, mint, decimals),
        shows_mint_init(d2, auth, mint, decimals),
    ensures
        d1.program_id@ == d2.program_id@,
        d1.instruction_data@ == d2.instruction_data@,
        d1.accounts@.len() == d2.accounts@.len(),
        forall|i: int| 0 <= i < d1.accounts@.len() ==> {
            &&& (#[trigger] d1.accounts@[i]).pubkey@ == d2.accounts@[i].pubkey@
            &&& d1.accounts@[i].is_signer == d2.accounts@[i].is_signer
            &&& d1.accounts@[i].is_writable == d2.accounts@[i].is_writable
        },
{
    assert forall|i: int| 0 <= i < d1.accounts@.len() implies {
        &&& (#[trigger] d1.accounts@[i]).pubkey@ == d2.accounts@[i].pubkey@
        &&& d1.accounts@[i].is_signer == d2.accounts@[i].is_signer
        &&& d1.accounts@[i].is_writable == d2.accounts@[i].is_writable
    } by {
        assert(i == 0 || i == 1);
    }
}

/// Renders an instruction as text.
pub fn render_instruction(ix: &InstructionDescriptor) -> (d: TokenData)
    ensures
        shows_instruction(d, *ix),
{
    let mut accounts: Vec<AccountMetaData> = Vec::new();
    let mut i: usize = 0;
    while i < ix.accounts.len()
        invariant
            i <= ix.accounts@.len(),
            accounts@.len() == i,
            forall|j: int| 0 <= j < i ==> shows_account(#[trigger] accounts@[j], ix.accounts@[j]),
        decreases ix.accounts@.len() - i,
    {
        let a = ix.accounts[i];
        let pubkey = pubkey_to_text(&a.pubkey);
        accounts.push(AccountMetaData { pubkey, is_signer: a.is_signer, is_writable: a.is_writable });
        i += 1;
    }
    let program_id = pubkey_to_text(&ix.program_id);
    let instruction_data = base58_encode(ix.data.as_slice());
    TokenData { program_id, accounts, instruction_data }
}

/// Wraps the outcome of building an instruction in its envelope and status.
pub fn token_reply(built: Result<InstructionDescriptor, FieldError>) -> (r: (u16, TokenResponse))
    ensures
        r.1.wf(),
        match built {
            Ok(ix) => r.0 == STATUS_OK && r.1.success && shows_instruction(r.1.data, ix),
            Err(e) => r.0 == status_of(e) && !r.1.success,
        },
{
    match built {
        Ok(ix) => (STATUS_OK, TokenResponse { success: true, data: render_instruction(&ix) }),
        Err(e) => (status_for(e), TokenResponse { success: false, data: TokenData::empty() }),
    }
}

/// Answers a token-creation request: validates the raw fields, builds the
/// "initialize mint" instruction and renders it, or reports the first
/// failure with empty data.
pub fn create_token(raw: &RawMintRequest) -> (r: (u16, TokenResponse))
    ensures
        r.1.wf(),
        match mint_request_outcome(*raw) {
            Ok((auth, mint, d)) => r.0 == STATUS_OK && r.1.success && shows_mint_init(r.1.data, auth, mint, d),
            Err(e) => r.0 == status_of(e) && !r.1.success,
        },
        plainly_not_pubkey(raw.mint_authority) ==> r.0 == STATUS_BAD_REQUEST && !r.1.success,
{
    token_reply(build_mint_init_instruction(raw))
}

} // verus!
