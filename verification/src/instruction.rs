//! Instruction descriptions for the token and system programs.
//!
//! An instruction names the program to run, the accounts it touches in
//! order (each with signing and writability flags), and its data bytes.
//! The four builders below delegate to the Solana crates through trusted
//! wrappers whose contracts pin down the exact account list and the exact
//! packed data, as the crates' sources lay them out.

use vstd::prelude::*;

use crate::key::Pubkey;

verus! {

/// One account an instruction touches, with its flags.
pub struct AccountMeta {
    pub pubkey: Pubkey,
    pub is_signer: bool,
    pub is_writable: bool,
}

/// An instruction: program id, ordered account list, data bytes.
pub struct Instruction {
    pub program_id: Pubkey,
    pub accounts: Vec<AccountMeta>,
    pub data: Vec<u8>,
}

/// The SPL token program id, the 32 bytes behind
/// `TokenkegQfeZyiNwAJbNbGKPFXCWuBvf9Ss623VQ5DA`.
pub open spec fn spl_token_program_id() -> Seq<u8> {
    seq![
        6u8, 221u8, 246u8, 225u8, 215u8, 101u8, 161u8, 147u8, 217u8, 203u8, 225u8, 70u8, 206u8,
        235u8, 121u8, 172u8, 28u8, 180u8, 133u8, 237u8, 95u8, 91u8, 55u8, 145u8, 58u8, 140u8,
        245u8, 133u8, 126u8, 255u8, 0u8, 169u8,
    ]
}

/// The rent sysvar id, the 32 bytes behind
/// `SysvarRent111111111111111111111111111111111`.
pub open spec fn rent_sysvar_id() -> Seq<u8> {
    seq![
        6u8, 167u8, 213u8, 23u8, 25u8, 44u8, 92u8, 81u8, 33u8, 140u8, 201u8, 76u8, 61u8, 74u8,
        241u8, 127u8, 88u8, 218u8, 238u8, 8u8, 155u8, 161u8, 253u8, 68u8, 227u8, 219u8, 217u8,
        138u8, 0u8, 0u8, 0u8, 0u8,
    ]
}

/// The system program id: 32 zero bytes, written `11111111111111111111111111111111`.
pub open spec fn system_program_id() -> Seq<u8> {
    Seq::new(32, |i: int| 0u8)
}

/// The little-endian bytes of a 64-bit amount.
pub open spec fn u64_le_bytes(v: u64) -> Seq<u8> {
    seq![
        (v & 0xff) as u8,
        ((v >> 8) & 0xff) as u8,
        ((v >> 16) & 0xff) as u8,
        ((v >> 24) & 0xff) as u8,
        ((v >> 32) & 0xff) as u8,
        ((v >> 40) & 0xff) as u8,
        ((v >> 48) & 0xff) as u8,
        ((v >> 56) & 0xff) as u8,
    ]
}

/// The packed SPL `InitializeMint` data with no freeze authority: tag 0, the
/// decimals, the 32-byte mint authority, and a trailing 0 for the absent
/// freeze authority.
pub open spec fn initialize_mint_data(decimals: u8, mint_authority: Seq<u8>) -> Seq<u8> {
    seq![0u8, decimals] + mint_authority + seq![0u8]
}

/// The packed SPL `Transfer` data: tag 3, then the amount in little-endian.
pub open spec fn transfer_data(amount: u64) -> Seq<u8> {
    seq![3u8] + u64_le_bytes(amount)
}

/// The packed SPL `MintTo` data: tag 7, then the amount in little-endian.
pub open spec fn mint_to_data(amount: u64) -> Seq<u8> {
    seq![7u8] + u64_le_bytes(amount)
}

/// The bincode form of the system program's `Transfer`: variant index 2 as a
/// little-endian 32-bit word, then the lamports in little-endian.
pub open spec fn system_transfer_data(lamports: u64) -> Seq<u8> {
    seq![2u8, 0u8, 0u8, 0u8] + u64_le_bytes(lamports)
}

/// Relies on `spl_token::instruction::initialize_mint`, called with the SPL
/// token program id and no freeze authority; with that program id it cannot
/// fail, and it lists the mint as writable and the rent sysvar read-only.
#[verifier::external_body]
pub(crate) fn spl_initialize_mint(mint: &Pubkey, mint_authority: &Pubkey, decimals: u8) -> (r:
    Instruction)
    requires
        mint.wf(),
        mint_authority.wf(),
    ensures
        r.program_id@ == spl_token_program_id(),
        r.data@ == initialize_mint_data(decimals, mint_authority@),
        r.accounts@.len() == 2,
        r.accounts@[0].pubkey@ == mint@,
        !r.accounts@[0].is_signer,
        r.accounts@[0].is_writable,
        r.accounts@[1].pubkey@ == rent_sysvar_id(),
        !r.accounts@[1].is_signer,
        !r.accounts@[1].is_writable,
{
    let m = spl_token::solana_program::pubkey::Pubkey::try_from(mint.bytes.as_slice()).unwrap();
    let a = spl_token::solana_program::pubkey::Pubkey::try_from(mint_authority.bytes.as_slice()).unwrap();
    let ins = spl_token::instruction::initialize_mint(&spl_token::id(), &m, &a, None, decimals).unwrap();
    let accounts = ins.accounts.iter().map(|x| AccountMeta {
        pubkey: Pubkey { bytes: x.pubkey.to_bytes().to_vec() },
        is_signer: x.is_signer,
        is_writable: x.is_writable,
    }).collect();
    Instruction { program_id: Pubkey { bytes: ins.program_id.to_bytes().to_vec() }, accounts, data: ins.data }
}

/// Relies on `spl_token::instruction::mint_to`, called with the SPL token
/// program id and no extra signers; with that program id it cannot fail, and
/// it lists the mint and destination as writable and the authority as the
/// sole read-only signer.
#[verifier::external_body]
pub(crate) fn spl_mint_to(mint: &Pubkey, destination: &Pubkey, authority: &Pubkey, amount: u64) -> (r:
    Instruction)
    requires
        mint.wf(),
        destination.wf(),
        authority.wf(),
    ensures
        r.program_id@ == spl_token_program_id(),
        r.data@ == mint_to_data(amount),
        r.accounts@.len() == 3,
        r.accounts@[0].pubkey@ == mint@,
        !r.accounts@[0].is_signer,
        r.accounts@[0].is_writable,
        r.accounts@[1].pubkey@ == destination@,
        !r.accounts@[1].is_signer,
        r.accounts@[1].is_writable,
        r.accounts@[2].pubkey@ == authority@,
        r.accounts@[2].is_signer,
        !r.accounts@[2].is_writable,
{
    let m = spl_token::solana_program::pubkey::Pubkey::try_from(mint.bytes.as_slice()).unwrap();
    let d = spl_token::solana_program::pubkey::Pubkey::try_from(destination.bytes.as_slice()).unwrap();
    let o = spl_token::solana_program::pubkey::Pubkey::try_from(authority.bytes.as_slice()).unwrap();
    let ins = spl_token::instruction::mint_to(&spl_token::id(), &m, &d, &o, &[], amount).unwrap();
    let accounts = ins.accounts.iter().map(|x| AccountMeta {
        pubkey: Pubkey { bytes: x.pubkey.to_bytes().to_vec() },
        is_signer: x.is_signer,
        is_writable: x.is_writable,
    }).collect();
    Instruction { program_id: Pubkey { bytes: ins.program_id.to_bytes().to_vec() }, accounts, data: ins.data }
}

/// Relies on `spl_token::instruction::transfer`, called with the SPL token
/// program id and no extra signers; with that program id it cannot fail, and
/// it lists the source and destination as writable and the authority as the
/// sole read-only signer.
#[verifier::external_body]
pub(crate) fn spl_transfer(source: &Pubkey, destination: &Pubkey, authority: &Pubkey, amount: u64) -> (r:
    Instruction)
    requires
        source.wf(),
        destination.wf(),
        authority.wf(),
    ensures
        r.program_id@ == spl_token_program_id(),
        r.data@ == transfer_data(amount),
        r.accounts@.len() == 3,
        r.accounts@[0].pubkey@ == source@,
        !r.accounts@[0].is_signer,
        r.accounts@[0].is_writable,
        r.accounts@[1].pubkey@ == destination@,
        !r.accounts@[1].is_signer,
        r.accounts@[1].is_writable,
        r.accounts@[2].pubkey@ == authority@,
        r.accounts@[2].is_signer,
        !r.accounts@[2].is_writable,
{
    let s = spl_token::solana_program::pubkey::Pubkey::try_from(source.bytes.as_slice()).unwrap();
    let d = spl_token::solana_program::pubkey::Pubkey::try_from(destination.bytes.as_slice()).unwrap();
    let o = spl_token::solana_program::pubkey::Pubkey::try_from(authority.bytes.as_slice()).unwrap();
    let ins = spl_token::instruction::transfer(&spl_token::id(), &s, &d, &o, &[], amount).unwrap();
    let accounts = ins.accounts.iter().map(|x| AccountMeta {
        pubkey: Pubkey { bytes: x.pubkey.to_bytes().to_vec() },
        is_signer: x.is_signer,
        is_writable: x.is_writable,
    }).collect();
    Instruction { program_id: Pubkey { bytes: ins.program_id.to_bytes().to_vec() }, accounts, data: ins.data }
}

/// Relies on `solana_system_interface::instruction::transfer`: a system
/// program transfer that lists the funding account as a writable signer and
/// the recipient as writable.
#[verifier::external_body]
pub(crate) fn system_transfer(from: &Pubkey, to: &Pubkey, lamports: u64) -> (r: Instruction)
    requires
        from.wf(),
        to.wf(),
    ensures
        r.program_id@ == system_program_id(),
        r.data@ == system_transfer_data(lamports),
        r.accounts@.len() == 2,
        r.accounts@[0].pubkey@ == from@,
        r.accounts@[0].is_signer,
        r.accounts@[0].is_writable,
        r.accounts@[1].pubkey@ == to@,
        !r.accounts@[1].is_signer,
        r.accounts@[1].is_writable,
{
    let f = solana_sdk::pubkey::Pubkey::try_from(from.bytes.as_slice()).unwrap();
    let t = solana_sdk::pubkey::Pubkey::try_from(to.bytes.as_slice()).unwrap();
    let ins = solana_system_interface::instruction::transfer(&f, &t, lamports);
    let accounts = ins.accounts.iter().map(|x| AccountMeta {
        pubkey: Pubkey { bytes: x.pubkey.to_bytes().to_vec() },
        is_signer: x.is_signer,
        is_writable: x.is_writable,
    }).collect();
    Instruction { program_id: Pubkey { bytes: ins.program_id.to_bytes().to_vec() }, accounts, data: ins.data }
}

} // verus!
