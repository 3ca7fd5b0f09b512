//! Base-58 text for public identifiers and opaque byte strings.

use vstd::prelude::*;
use solana_sdk::pubkey::{ParsePubkeyError, Pubkey};
use std::str::FromStr;

verus! {

#[verifier::external_type_specification]
#[verifier::external_body]
pub struct ExParsePubkeyError(ParsePubkeyError);

/// A character of the Bitcoin base-58 alphabet: digits and letters without
/// `0`, `O`, `I` and `l`.
pub open spec fn is_base58_char(c: char) -> bool {
    ('1' <= c && c <= '9')
        || ('A' <= c && c <= 'Z' && c != 'I' && c != 'O')
        || ('a' <= c && c <= 'z' && c != 'l')
}

/// Every character of `s` belongs to the base-58 alphabet.
pub open spec fn all_base58_chars(s: Seq<char>) -> bool {
    forall|i: int| 0 <= i < s.len() ==> #[trigger] is_base58_char(s[i])
}

/// The longest base-58 text that a 32-byte identifier can take.
pub const MAX_PUBKEY_TEXT_LEN: usize = 44;

/// The text that a 32-byte public identifier is shown as.
pub uninterp spec fn pubkey_text(b: Seq<u8>) -> Seq<char>;

/// The 32 bytes that a text names as a public identifier, if it names one.
pub uninterp spec fn pubkey_parsed(s: Seq<char>) -> Option<Seq<u8>>;

/// The base-58 text of a byte string.
pub uninterp spec fn base58_of(b: Seq<u8>) -> Seq<char>;

/// Relies on `FromStr for Pubkey` (solana-pubkey): it refuses a text of more
/// than 44 bytes, and five8's `decode_32` refuses any character outside the
/// base-58 alphabet; otherwise the outcome is a function of the text.
#[verifier::external_body]
pub(crate) fn parse_pubkey(s: &str) -> (r: Result<[u8; 32], ParsePubkeyError>)
    ensures
        match r {
            Ok(b) => pubkey_parsed(s@) == Some(b@),
            Err(_) => pubkey_parsed(s@) is None,
        },
        s@.len() > MAX_PUBKEY_TEXT_LEN ==> r is Err,
        !all_base58_chars(s@) ==> r is Err,
{
    Pubkey::from_str(s).map(|k| k.to_bytes())
}

/// Relies on `Display for Pubkey` (solana-pubkey): the identifier's base-58
/// text, a function of its 32 bytes.
#[verifier::external_body]
pub(crate) fn pubkey_to_text(b: &[u8; 32]) -> (r: String)
    ensures
        r@ == pubkey_text(b@),
{
    Pubkey::new_from_array(*b).to_string()
}

/// Relies on `bs58::encode(..).into_string()`: the base-58 text of the bytes,
/// a function of the bytes alone.
#[verifier::external_body]
pub(crate) fn base58_encode(b: &[u8]) -> (r: String)
    ensures
        r@ == base58_of(b@),
{
    bs58::encode(b).into_string()
}

} // verus!
