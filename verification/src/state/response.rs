//! What each endpoint returns: flat structs of strings and flags.

use vstd::prelude::*;

verus! {

/// The success envelope: a flag that is always true, and the payload.
pub struct SuccessResponse<T> {
    pub success: bool,
    pub data: T,
}

/// The error envelope: a flag that is always false, and a message.
pub struct ErrorResponse {
    pub success: bool,
    pub error: String,
}

/// A generated keypair, both halves base58-encoded.
pub struct KeypairData {
    pub pubkey: String,
    pub secret: String,
}

/// One instruction account: base58 public key and both flags.
pub struct AccountMetaInfo {
    pub pubkey: String,
    pub is_signer: bool,
    pub is_writable: bool,
}

/// A mint-initialisation instruction, ready to serialise.
pub struct CreateTokenResponse {
    pub program_id: String,
    pub accounts: Vec<AccountMetaInfo>,
    pub instruction_data: String,
}

/// A token instruction (mint-to), ready to serialise.
pub struct TokenInstructionResponse {
    pub program_id: String,
    pub accounts: Vec<AccountMetaInfo>,
    pub instruction_data: String,
}

/// A signing result: the base64 signature, the signer's base58 public key,
/// and the message signed.
pub struct SignMessageResponse {
    pub signature: String,
    pub public_key: String,
    pub message: String,
}

/// A verification result, echoing the message and public key checked.
pub struct VerifyMessageResponse {
    pub valid: bool,
    pub message: String,
    pub pubkey: String,
}

/// A system transfer instruction; its accounts carry no flags.
pub struct SendSolResponse {
    pub program_id: String,
    pub accounts: Vec<String>,
    pub instruction_data: String,
}

/// A token transfer instruction; its accounts carry the signer flag alone.
pub struct SendTokenResponse {
    pub program_id: String,
    pub accounts: Vec<AccountInfo>,
    pub instruction_data: String,
}

/// One instruction account: base58 public key and the signer flag.
pub struct AccountInfo {
    pub pubkey: String,
    pub is_signer: bool,
}

} // verus!
