//! Key generation and mint-initialization instruction building for a token
//! service: untrusted request fields are validated and turned into an exact
//! instruction descriptor, and every outcome is wrapped in a response envelope
//! that never carries partial data on failure.

pub mod encoding;
pub mod token;
pub mod response;
pub mod keypair;
