use vstd::prelude::*;

verus! {

/// A decoded request to create a token mint: three variable-length byte
/// fields (a display name, a ticker symbol and a URI) and the token's
/// decimal precision.
#[derive(Debug, PartialEq, Eq)]
pub struct CreateTokenArgs {
    pub name: Vec<u8>,
    pub symbol: Vec<u8>,
    pub uri: Vec<u8>,
    pub decimals: u8,
}

/// The ways this handler itself rejects an invocation, before any host
/// call is made. Errors of the host runtime's own creation primitive are
/// surfaced by the caller that performs that call.
#[derive(Clone, Copy, Debug, PartialEq, Eq, Structural)]
pub enum CreateTokenError {
    /// The invocation did not supply exactly the five required account
    /// references.
    NotEnoughAccountKeys,
    /// The instruction payload does not decode as a create-token request.
    InvalidInstructionData,
}

} // verus!
