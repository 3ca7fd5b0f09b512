//! Fresh signing keypairs, rendered as base-58 text in a response envelope.

use vstd::prelude::*;
use crate::encoding::{base58_encode, base58_of, pubkey_text, pubkey_to_text};
use crate::response::{STATUS_INTERNAL_ERROR, STATUS_OK};
use solana_sdk::signature::Keypair;
use solana_sdk::signer::Signer;

verus! {

/// A keypair as bytes: the 32-byte public identifier and the 64-byte secret
/// material, which is the private half followed by the public half.
pub struct KeypairBytes {
    pub public: [u8; 32],
    pub secret: [u8; 64],
}

impl KeypairBytes {
    /// The secret material ends with the public identifier.
    pub open spec fn wf(&self) -> bool {
        self.public@ =~= self.secret@.subrange(32, 64)
    }
}

/// Why no keypair could be made.
#[derive(Clone, Copy, Debug, PartialEq, Eq, Structural)]
pub enum KeygenError {
    EntropyUnavailable,
}

/// A keypair as text: the identifier and the whole secret material in base 58.
pub struct KeypairData {
    pub pubkey: String,
    pub secret: String,
}

/// The envelope of the keypair endpoint.
pub struct KeypairResponse {
    pub success: bool,
    pub data: KeypairData,
}

impl KeypairData {
    /// No text: what a failure carries.
    pub open spec fn is_empty(&self) -> bool {
        self.pubkey@.len() == 0 && self.secret@.len() == 0
    }

    pub fn empty() -> (r: KeypairData)
        ensures
            r.is_empty(),
    {
        KeypairData { pubkey: String::new(), secret: String::new() }
    }
}

impl KeypairResponse {
    /// A failed response carries empty data.
    pub open spec fn wf(&self) -> bool {
        !self.success ==> self.data.is_empty()
    }
}

/// `d` shows the keypair whose secret material is `secret`: the text of its
/// last 32 bytes, the public identifier, and the base-58 text of all 64.
pub open spec fn shows_keypair(d: KeypairData, secret: Seq<u8>) -> bool {
    &&& secret.len() == 64
    &&& d.pubkey@ == pubkey_text(secret.subrange(32, 64))
    &&& d.secret@ == base58_of(secret)
}

/// Relies on solana-keypair: `Keypair::new` draws an ed25519 keypair from the
/// operating system's random source, `to_bytes` gives the secret key then the
/// public key, and `pubkey` gives the public key.
#[verifier::external_body]
fn fresh_keypair() -> (r: KeypairBytes)
    ensures
        r.wf(),
{
    let keypair = Keypair::new();
    KeypairBytes { public: keypair.pubkey().to_bytes(), secret: keypair.to_bytes() }
}

/// Renders a keypair as text.
pub fn keypair_data(kp: &KeypairBytes) -> (d: KeypairData)
    requires
        kp.wf(),
    ensures
        shows_keypair(d, kp.secret@),
{
    let pubkey = pubkey_to_text(&kp.public);
    let secret = base58_encode(kp.secret.as_slice());
    KeypairData { pubkey, secret }
}

/// Wraps the outcome of making a keypair in its envelope and status; a
/// failure to make one is an internal error.
pub fn keypair_reply(made: Result<KeypairData, KeygenError>) -> (r: (u16, KeypairResponse))
    ensures
        r.1.wf(),
        match made {
            Ok(d) => r.0 == STATUS_OK && r.1.success && r.1.data == d,
            Err(_) => r.0 == STATUS_INTERNAL_ERROR && !r.1.success,
        },
{
    match made {
        Ok(data) => (STATUS_OK, KeypairResponse { success: true, data }),
        Err(_) => (STATUS_INTERNAL_ERROR, KeypairResponse { success: false, data: KeypairData::empty() }),
    }
}

/// Answers a keypair request with a fresh keypair as text.
pub fn gen_keypair() -> (r: (u16, KeypairResponse))
    ensures
        r.1.wf(),
        r.0 == STATUS_OK,
        r.1.success,
        exists|secret: Seq<u8>| shows_keypair(r.1.data, secret),
{
    let kp = fresh_keypair();
    let data = keypair_data(&kp);
    keypair_reply(Ok(data))
}

} // verus!
