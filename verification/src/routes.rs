//! The gateway's endpoints as verified functions on plain values.
//!
//! Each function mirrors one route: it validates the request's fields, builds
//! the instruction or signing result, and wraps it in the `ApiResponse`
//! envelope. The contracts say exactly which requests succeed, which error
//! message every rejected request gets, and the full shape of every
//! successful answer. HTTP status mapping (success to 200, error to 400) and
//! JSON stay with the caller.

use vstd::prelude::*;

use crate::codec::base58_decode;
use crate::codec::base58_decoded;
use crate::codec::base58_encode;
use crate::codec::base58_of;
use crate::codec::base64_decode;
use crate::codec::base64_decoded;
use crate::codec::base64_encode;
use crate::codec::base64_of;
use crate::codec::blank;
use crate::codec::trim_str;
use crate::instruction::initialize_mint_data;
use crate::instruction::mint_to_data;
use crate::instruction::rent_sysvar_id;
use crate::instruction::spl_initialize_mint;
use crate::instruction::spl_mint_to;
use crate::instruction::spl_token_program_id;
use crate::instruction::spl_transfer;
use crate::instruction::system_program_id;
use crate::instruction::system_transfer;
use crate::instruction::system_transfer_data;
use crate::instruction::transfer_data;
use crate::instruction::AccountMeta;
use crate::key::generate_keypair_bytes;
use crate::key::keypair_bytes_valid;
use crate::key::pubkey_str_bytes;
use crate::key::pubkey_str_valid;
use crate::key::sign_message_with;
use crate::key::signature_of;
use crate::key::signature_verifies;
use crate::key::verify_signature;
use crate::key::Keypair;
use crate::key::Pubkey;
use crate::state::request::CreateTokenRequest;
use crate::state::request::MintTokenRequest;
use crate::state::request::SendSolRequest;
use crate::state::request::SendTokenRequest;
use crate::state::request::SignMessageRequest;
use crate::state::request::VerifyMessageRequest;
use crate::state::response::AccountInfo;
use crate::state::response::AccountMetaInfo;
use crate::state::response::CreateTokenResponse;
use crate::state::response::KeypairData;
use crate::state::response::SendSolResponse;
use crate::state::response::SendTokenResponse;
use crate::state::response::SignMessageResponse;
use crate::state::response::TokenInstructionResponse;
use crate::state::response::VerifyMessageResponse;

verus! {

/// The answer of every endpoint: a success envelope with the payload, or an
/// error envelope with a message.
pub enum ApiResponse<T> {
    Success { success: bool, data: T },
    Error { success: bool, error: String },
}

/// Whether a secret-key text is well-formed base58.
pub open spec fn secret_decodes(secret: Seq<char>) -> bool {
    base58_decoded(secret) is Some
}

/// Whether the decoded secret-key bytes are a form the keypair parser
/// accepts.
pub open spec fn secret_keypair_ok(secret: Seq<char>) -> bool
    recommends
        secret_decodes(secret),
{
    keypair_bytes_valid(base58_decoded(secret)->Some_0)
}

/// Whether a signature text is well-formed base64.
pub open spec fn signature_decodes(s: Seq<char>) -> bool {
    base64_decoded(s) is Some
}

/// Whether the decoded signature is exactly 64 bytes.
pub open spec fn signature_len_ok(s: Seq<char>) -> bool
    recommends
        signature_decodes(s),
{
    base64_decoded(s)->Some_0.len() == 64
}

/// The error envelope with the given message.
fn error_response<T>(msg: &str) -> (r: ApiResponse<T>)
    ensures
        r matches ApiResponse::Error { success, error } && !success && error@ == msg@,
{
    ApiResponse::Error { success: false, error: msg.to_owned() }
}

/// How one instruction account appears in a response that carries both
/// flags.
spec fn meta_matches(m: AccountMeta, info: AccountMetaInfo) -> bool {
    &&& info.pubkey@ == base58_of(m.pubkey@)
    &&& info.is_signer == m.is_signer
    &&& info.is_writable == m.is_writable
}

/// How one instruction account appears in a response that carries the signer
/// flag alone.
spec fn info_matches(m: AccountMeta, info: AccountInfo) -> bool {
    &&& info.pubkey@ == base58_of(m.pubkey@)
    &&& info.is_signer == m.is_signer
}

/// Encodes every account of an instruction, keeping order and both flags.
fn meta_infos(accounts: &Vec<AccountMeta>) -> (r: Vec<AccountMetaInfo>)
    ensures
        r@.len() == accounts@.len(),
        forall|i: int| 0 <= i < r@.len() ==> #[trigger] meta_matches(accounts@[i], r@[i]),
{
    let mut out: Vec<AccountMetaInfo> = Vec::new();
    let mut idx: usize = 0;
    while idx < accounts.len()
        invariant
            idx <= accounts@.len(),
            out@.len() == idx,
            forall|i: int| 0 <= i < idx ==> #[trigger] meta_matches(accounts@[i], out@[i]),
        decreases accounts@.len() - idx,
    {
        let m = &accounts[idx];
        let pubkey = base58_encode(m.pubkey.as_bytes());
        out.push(AccountMetaInfo { pubkey, is_signer: m.is_signer, is_writable: m.is_writable });
        proof {
            assert(meta_matches(accounts@[idx as int], out@[idx as int]));
        }
        idx = idx + 1;
    }
    out
}

/// Encodes every account of an instruction, keeping order and the signer
/// flag.
fn account_infos(accounts: &Vec<AccountMeta>) -> (r: Vec<AccountInfo>)
    ensures
        r@.len() == accounts@.len(),
        forall|i: int| 0 <= i < r@.len() ==> #[trigger] info_matches(accounts@[i], r@[i]),
{
    let mut out: Vec<AccountInfo> = Vec::new();
    let mut idx: usize = 0;
    while idx < accounts.len()
        invariant
            idx <= accounts@.len(),
            out@.len() == idx,
            forall|i: int| 0 <= i < idx ==> #[trigger] info_matches(accounts@[i], out@[i]),
        decreases accounts@.len() - idx,
    {
        let m = &accounts[idx];
        let pubkey = base58_encode(m.pubkey.as_bytes());
        out.push(AccountInfo { pubkey, is_signer: m.is_signer });
        proof {
            assert(info_matches(accounts@[idx as int], out@[idx as int]));
        }
        idx = idx + 1;
    }
    out
}

/// Encodes every account of an instruction as its base58 key alone, keeping
/// order.
fn account_strings(accounts: &Vec<AccountMeta>) -> (r: Vec<String>)
    ensures
        r@.len() == accounts@.len(),
        forall|i: int| 0 <= i < r@.len() ==> #[trigger] r@[i]@ == base58_of(accounts@[i].pubkey@),
{
    let mut out: Vec<String> = Vec::new();
    let mut idx: usize = 0;
    while idx < accounts.len()
        invariant
            idx <= accounts@.len(),
            out@.len() == idx,
            forall|i: int| 0 <= i < idx ==> #[trigger] out@[i]@ == base58_of(accounts@[i].pubkey@),
        decreases accounts@.len() - idx,
    {
        let m = &accounts[idx];
        let pubkey = base58_encode(m.pubkey.as_bytes());
        out.push(pubkey);
        idx = idx + 1;
    }
    out
}

/// Generates a fresh keypair and returns both halves base58-encoded: the
/// full 64 bytes as the secret, their second half as the public key.
pub fn generate_keypair() -> (r: ApiResponse<KeypairData>)
    ensures
        r is Success,
        r matches ApiResponse::Success { success, data } ==> success && exists|b: Seq<u8>|
            {
                &&& #[trigger] keypair_bytes_valid(b)
                &&& b.len() == 64
                &&& data.secret@ == base58_of(b)
                &&& data.pubkey@ == base58_of(b.subrange(32, 64))
            },
{
    let bytes = generate_keypair_bytes();
    let kp = Keypair::from_bytes(bytes).unwrap();
    let secret = base58_encode(kp.as_bytes());
    let pk = kp.public_key();
    let pubkey = base58_encode(pk.as_bytes());
    ApiResponse::Success { success: true, data: KeypairData { pubkey, secret } }
}

/// Builds the SPL mint-initialisation instruction for a new token: the mint
/// account writable, the rent sysvar read-only, and the packed
/// `InitializeMint` data with no freeze authority.
pub fn create_token(req: &CreateTokenRequest) -> (r: ApiResponse<CreateTokenResponse>)
    ensures
        r is Success <==> pubkey_str_valid(req.mint@) && pubkey_str_valid(req.mint_authority@),
        r matches ApiResponse::Success { success, data } ==> {
            &&& success
            &&& data.program_id@ == base58_of(spl_token_program_id())
            &&& data.instruction_data@ == base64_of(
                initialize_mint_data(req.decimals, pubkey_str_bytes(req.mint_authority@)),
            )
            &&& data.accounts@.len() == 2
            &&& data.accounts@[0].pubkey@ == base58_of(pubkey_str_bytes(req.mint@))
            &&& !data.accounts@[0].is_signer
            &&& data.accounts@[0].is_writable
            &&& data.accounts@[1].pubkey@ == base58_of(rent_sysvar_id())
            &&& !data.accounts@[1].is_signer
            &&& !data.accounts@[1].is_writable
        },
        !pubkey_str_valid(req.mint@) ==> (r matches ApiResponse::Error { success, error }
            && !success && error@ == "Invalid mint public key"@),
        pubkey_str_valid(req.mint@) && !pubkey_str_valid(req.mint_authority@) ==> (r matches
            ApiResponse::Error { success, error } && !success && error@
            == "Invalid mint authority public key"@),
{
    let mint = match Pubkey::parse(req.mint.as_str()) {
        Some(p) => p,
        None => {
            return error_response("Invalid mint public key");
        },
    };
    let mint_authority = match Pubkey::parse(req.mint_authority.as_str()) {
        Some(p) => p,
        None => {
            return error_response("Invalid mint authority public key");
        },
    };
    let ins = spl_initialize_mint(&mint, &mint_authority, req.decimals);
    let accounts = meta_infos(&ins.accounts);
    proof {
        assert(meta_matches(ins.accounts@[0], accounts@[0]));
        assert(meta_matches(ins.accounts@[1], accounts@[1]));
    }
    let program_id = base58_encode(ins.program_id.as_bytes());
    let instruction_data = base64_encode(ins.data.as_slice());
    ApiResponse::Success {
        success: true,
        data: CreateTokenResponse { program_id, accounts, instruction_data },
    }
}

/// Builds the SPL mint-to instruction: mint and destination writable, the
/// authority the sole read-only signer, and the packed `MintTo` data.
pub fn mint_token(req: &MintTokenRequest) -> (r: ApiResponse<TokenInstructionResponse>)
    ensures
        r is Success <==> pubkey_str_valid(req.mint@) && pubkey_str_valid(req.destination@)
            && pubkey_str_valid(req.authority@),
        r matches ApiResponse::Success { success, data } ==> {
            &&& success
            &&& data.program_id@ == base58_of(spl_token_program_id())
            &&& data.instruction_data@ == base64_of(mint_to_data(req.amount))
            &&& data.accounts@.len() == 3
            &&& data.accounts@[0].pubkey@ == base58_of(pubkey_str_bytes(req.mint@))
            &&& !data.accounts@[0].is_signer
            &&& data.accounts@[0].is_writable
            &&& data.accounts@[1].pubkey@ == base58_of(pubkey_str_bytes(req.destination@))
            &&& !data.accounts@[1].is_signer
            &&& data.accounts@[1].is_writable
            &&& data.accounts@[2].pubkey@ == base58_of(pubkey_str_bytes(req.authority@))
            &&& data.accounts@[2].is_signer
            &&& !data.accounts@[2].is_writable
        },
        !pubkey_str_valid(req.mint@) ==> (r matches ApiResponse::Error { success, error }
            && !success && error@ == "Invalid mint pubkey"@),
        pubkey_str_valid(req.mint@) && !pubkey_str_valid(req.destination@) ==> (r matches
            ApiResponse::Error { success, error } && !success && error@
            == "Invalid destination pubkey"@),
        pubkey_str_valid(req.mint@) && pubkey_str_valid(req.destination@) && !pubkey_str_valid(
            req.authority@,
        ) ==> (r matches ApiResponse::Error { success, error } && !success && error@
            == "Invalid authority pubkey"@),
{
    let mint = match Pubkey::parse(req.mint.as_str()) {
        Some(p) => p,
        None => {
            return error_response("Invalid mint pubkey");
        },
    };
    let destination = match Pubkey::parse(req.destination.as_str()) {
        Some(p) => p,
        None => {
            return error_response("Invalid destination pubkey");
        },
    };
    let authority = match Pubkey::parse(req.authority.as_str()) {
        Some(p) => p,
        None => {
            return error_response("Invalid authority pubkey");
        },
    };
    let ins = spl_mint_to(&mint, &destination, &authority, req.amount);
    let accounts = meta_infos(&ins.accounts);
    proof {
        assert(meta_matches(ins.accounts@[0], accounts@[0]));
        assert(meta_matches(ins.accounts@[1], accounts@[1]));
        assert(meta_matches(ins.accounts@[2], accounts@[2]));
    }
    let program_id = base58_encode(ins.program_id.as_bytes());
    let instruction_data = base64_encode(ins.data.as_slice());
    ApiResponse::Success {
        success: true,
        data: TokenInstructionResponse { program_id, accounts, instruction_data },
    }
}

/// Signs a message with a base58-encoded secret key and returns the base64
/// signature, the signer's public key, and the message again.
pub fn sign_message(req: &SignMessageRequest) -> (r: ApiResponse<SignMessageResponse>)
    ensures
        r is Success <==> !blank(req.message@) && !blank(req.secret@) && secret_decodes(
            req.secret@,
        ) && secret_keypair_ok(req.secret@),
        r matches ApiResponse::Success { success, data } ==> ({
            let kb = base58_decoded(req.secret@)->Some_0;
            &&& success
            &&& data.signature@ == base64_of(signature_of(kb, req.message@))
            &&& data.public_key@ == base58_of(kb.subrange(32, 64))
            &&& data.message@ == req.message@
        }),
        blank(req.message@) || blank(req.secret@) ==> (r matches ApiResponse::Error {
            success,
            error,
        } && !success && error@ == "Missing required fields"@),
        !blank(req.message@) && !blank(req.secret@) && !secret_decodes(req.secret@) ==> (r matches
            ApiResponse::Error { success, error } && !success && error@
            == "Invalid base58-encoded secret key"@),
        !blank(req.message@) && !blank(req.secret@) && secret_decodes(req.secret@)
            && !secret_keypair_ok(req.secret@) ==> (r matches ApiResponse::Error { success, error }
            && !success && error@ == "Invalid secret key format (must be 64 bytes)"@),
{
    if trim_str(req.message.as_str()).is_empty() || trim_str(req.secret.as_str()).is_empty() {
        return error_response("Missing required fields");
    }
    let secret_bytes = match base58_decode(req.secret.as_str()) {
        Some(v) => v,
        None => {
            return error_response("Invalid base58-encoded secret key");
        },
    };
    let kp = match Keypair::from_bytes(secret_bytes) {
        Some(k) => k,
        None => {
            return error_response("Invalid secret key format (must be 64 bytes)");
        },
    };
    let sig = sign_message_with(&kp, req.message.as_str());
    let signature = base64_encode(sig.as_slice());
    let pk = kp.public_key();
    let public_key = base58_encode(pk.as_bytes());
    ApiResponse::Success {
        success: true,
        data: SignMessageResponse { signature, public_key, message: req.message.clone() },
    }
}

/// Checks a base64-encoded signature against a public key and message,
/// echoing both inputs beside the verdict.
pub fn verify_message(req: &VerifyMessageRequest) -> (r: ApiResponse<VerifyMessageResponse>)
    ensures
        r is Success <==> pubkey_str_valid(req.pubkey@) && signature_decodes(req.signature@)
            && signature_len_ok(req.signature@),
        r matches ApiResponse::Success { success, data } ==> {
            &&& success
            &&& data.valid == signature_verifies(
                base64_decoded(req.signature@)->Some_0,
                pubkey_str_bytes(req.pubkey@),
                req.message@,
            )
            &&& data.message@ == req.message@
            &&& data.pubkey@ == req.pubkey@
        },
        !pubkey_str_valid(req.pubkey@) ==> (r matches ApiResponse::Error { success, error }
            && !success && error@ == "Invalid public key"@),
        pubkey_str_valid(req.pubkey@) && !signature_decodes(req.signature@) ==> (r matches
            ApiResponse::Error { success, error } && !success && error@
            == "Invalid base64 signature"@),
        pubkey_str_valid(req.pubkey@) && signature_decodes(req.signature@) && !signature_len_ok(
            req.signature@,
        ) ==> (r matches ApiResponse::Error { success, error } && !success && error@
            == "Failed to parse signature"@),
{
    let pk = match Pubkey::parse(req.pubkey.as_str()) {
        Some(p) => p,
        None => {
            return error_response("Invalid public key");
        },
    };
    let sig = match base64_decode(req.signature.as_str()) {
        Some(v) => v,
        None => {
            return error_response("Invalid base64 signature");
        },
    };
    if sig.len() != 64 {
        return error_response("Failed to parse signature");
    }
    let valid = verify_signature(sig.as_slice(), &pk, req.message.as_str());
    ApiResponse::Success {
        success: true,
        data: VerifyMessageResponse {
            valid,
            message: req.message.clone(),
            pubkey: req.pubkey.clone(),
        },
    }
}

/// Builds the system program transfer of lamports: the funding account a
/// writable signer, the recipient writable, and the bincode `Transfer` data.
pub fn send_sol(req: &SendSolRequest) -> (r: ApiResponse<SendSolResponse>)
    ensures
        r is Success <==> req.lamports > 0 && pubkey_str_valid(req.from@) && pubkey_str_valid(
            req.to@,
        ),
        r matches ApiResponse::Success { success, data } ==> {
            &&& success
            &&& data.program_id@ == base58_of(system_program_id())
            &&& data.instruction_data@ == base64_of(system_transfer_data(req.lamports))
            &&& data.accounts@.len() == 2
            &&& data.accounts@[0]@ == base58_of(pubkey_str_bytes(req.from@))
            &&& data.accounts@[1]@ == base58_of(pubkey_str_bytes(req.to@))
        },
        req.lamports == 0 ==> (r matches ApiResponse::Error { success, error } && !success
            && error@ == "Lamports must be greater than 0"@),
        req.lamports > 0 && !pubkey_str_valid(req.from@) ==> (r matches ApiResponse::Error {
            success,
            error,
        } && !success && error@ == "Invalid 'from' pubkey"@),
        req.lamports > 0 && pubkey_str_valid(req.from@) && !pubkey_str_valid(req.to@) ==> (r matches
            ApiResponse::Error { success, error } && !success && error@ == "Invalid 'to' pubkey"@),
{
    if req.lamports == 0 {
        return error_response("Lamports must be greater than 0");
    }
    let from = match Pubkey::parse(req.from.as_str()) {
        Some(p) => p,
        None => {
            return error_response("Invalid 'from' pubkey");
        },
    };
    let to = match Pubkey::parse(req.to.as_str()) {
        Some(p) => p,
        None => {
            return error_response("Invalid 'to' pubkey");
        },
    };
    let ins = system_transfer(&from, &to, req.lamports);
    let accounts = account_strings(&ins.accounts);
    let program_id = base58_encode(ins.program_id.as_bytes());
    let instruction_data = base64_encode(ins.data.as_slice());
    ApiResponse::Success {
        success: true,
        data: SendSolResponse { program_id, accounts, instruction_data },
    }
}

/// Builds the SPL token transfer instruction. As the route wires it, the
/// mint account stands as the source: the account list is the mint, the
/// destination, then the owner as the sole read-only signer, with the packed
/// `Transfer` data.
pub fn send_token(req: &SendTokenRequest) -> (r: ApiResponse<SendTokenResponse>)
    ensures
        r is Success <==> pubkey_str_valid(req.destination@) && pubkey_str_valid(req.mint@)
            && pubkey_str_valid(req.owner@),
        r matches ApiResponse::Success { success, data } ==> {
            &&& success
            &&& data.program_id@ == base58_of(spl_token_program_id())
            &&& data.instruction_data@ == base64_of(transfer_data(req.amount))
            &&& data.accounts@.len() == 3
            &&& data.accounts@[0].pubkey@ == base58_of(pubkey_str_bytes(req.mint@))
            &&& !data.accounts@[0].is_signer
            &&& data.accounts@[1].pubkey@ == base58_of(pubkey_str_bytes(req.destination@))
            &&& !data.accounts@[1].is_signer
            &&& data.accounts@[2].pubkey@ == base58_of(pubkey_str_bytes(req.owner@))
            &&& data.accounts@[2].is_signer
        },
        !pubkey_str_valid(req.destination@) ==> (r matches ApiResponse::Error { success, error }
            && !success && error@ == "Invalid destination pubkey"@),
        pubkey_str_valid(req.destination@) && !pubkey_str_valid(req.mint@) ==> (r matches
            ApiResponse::Error { success, error } && !success && error@ == "Invalid mint pubkey"@),
        pubkey_str_valid(req.destination@) && pubkey_str_valid(req.mint@) && !pubkey_str_valid(
            req.owner@,
        ) ==> (r matches ApiResponse::Error { success, error } && !success && error@
            == "Invalid owner pubkey"@),
{
    let destination = match Pubkey::parse(req.destination.as_str()) {
        Some(p) => p,
        None => {
            return error_response("Invalid destination pubkey");
        },
    };
    let mint = match Pubkey::parse(req.mint.as_str()) {
        Some(p) => p,
        None => {
            return error_response("Invalid mint pubkey");
        },
    };
    let owner = match Pubkey::parse(req.owner.as_str()) {
        Some(p) => p,
        None => {
            return error_response("Invalid owner pubkey");
        },
    };
    let ins = spl_transfer(&mint, &destination, &owner, req.amount);
    let accounts = account_infos(&ins.accounts);
    proof {
        assert(info_matches(ins.accounts@[0], accounts@[0]));
        assert(info_matches(ins.accounts@[1], accounts@[1]));
        assert(info_matches(ins.accounts@[2], accounts@[2]));
    }
    let program_id = base58_encode(ins.program_id.as_bytes());
    let instruction_data = base64_encode(ins.data.as_slice());
    ApiResponse::Success {
        success: true,
        data: SendTokenResponse { program_id, accounts, instruction_data },
    }
}

} // verus!
