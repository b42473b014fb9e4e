//! What each endpoint takes: flat structs of strings and amounts.

use vstd::prelude::*;

verus! {

/// Inputs for building an SPL mint-initialisation instruction.
pub struct CreateTokenRequest {
    pub mint: String,
    pub mint_authority: String,
    pub decimals: u8,
}

/// Inputs for building an SPL mint-to instruction.
pub struct MintTokenRequest {
    pub mint: String,
    pub destination: String,
    pub authority: String,
    pub amount: u64,
}

/// Inputs for signing a message with a base58-encoded secret key.
pub struct SignMessageRequest {
    pub message: String,
    pub secret: String,
}

/// Inputs for verifying a base64-encoded signature.
pub struct VerifyMessageRequest {
    pub message: String,
    pub signature: String,
    pub pubkey: String,
}

/// Inputs for building a system program transfer of lamports.
pub struct SendSolRequest {
    pub from: String,
    pub to: String,
    pub lamports: u64,
}

/// Inputs for building an SPL token transfer instruction.
pub struct SendTokenRequest {
    pub destination: String,
    pub mint: String,
    pub owner: String,
    pub amount: u64,
}

} // verus!
