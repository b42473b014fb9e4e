//! Public keys and keypairs, modelled as their byte forms.
//!
//! A Solana public key is 32 bytes, written as base58 text; a keypair is 64
//! bytes, the secret key followed by the public key it derives. Parsing and
//! the length rules are verified here; key generation, signing and signature
//! verification are reached through trusted wrappers.

use vstd::prelude::*;

use crate::codec::base58_decode;
use crate::codec::base58_decoded;

verus! {

/// Whether the text parses as a public key: well-formed base58 that decodes
/// to exactly 32 bytes.
pub open spec fn pubkey_str_valid(s: Seq<char>) -> bool {
    match base58_decoded(s) {
        Some(b) => b.len() == 32,
        None => false,
    }
}

/// The 32 bytes behind a valid public key text.
pub open spec fn pubkey_str_bytes(s: Seq<char>) -> Seq<u8>
    recommends
        pubkey_str_valid(s),
{
    base58_decoded(s)->Some_0
}

/// A 32-byte public key.
pub struct Pubkey {
    pub(crate) bytes: Vec<u8>,
}

impl View for Pubkey {
    type V = Seq<u8>;

    closed spec fn view(&self) -> Seq<u8> {
        self.bytes@
    }
}

impl Pubkey {
    /// The key holds exactly 32 bytes.
    pub open spec fn wf(&self) -> bool {
        self@.len() == 32
    }

    /// The key's bytes.
    pub fn as_bytes(&self) -> (r: &[u8])
        ensures
            r@ == self@,
    {
        self.bytes.as_slice()
    }

    /// Parses base58 text into a public key, accepting exactly the strings
    /// that decode to 32 bytes.
    pub fn parse(s: &str) -> (r: Option<Pubkey>)
        ensures
            r is Some <==> pubkey_str_valid(s@),
            r matches Some(p) ==> p.wf() && p@ == pubkey_str_bytes(s@),
    {
        match base58_decode(s) {
            Some(v) => {
                if v.len() == 32 {
                    Some(Pubkey { bytes: v })
                } else {
                    None
                }
            },
            None => None,
        }
    }
}

/// Whether `Keypair::try_from` accepts these bytes: 64 bytes whose second
/// half is the public key derived from the secret key in the first half.
pub uninterp spec fn keypair_bytes_valid(b: Seq<u8>) -> bool;

/// The ed25519 signature that a keypair with these bytes produces over the
/// message.
pub uninterp spec fn signature_of(keypair: Seq<u8>, msg: Seq<char>) -> Seq<u8>;

/// Whether `Signature::verify` accepts the 64-byte signature for this public
/// key and message.
pub uninterp spec fn signature_verifies(sig: Seq<u8>, pubkey: Seq<u8>, msg: Seq<char>) -> bool;

/// A keypair in its 64-byte form: secret key, then the public key it derives.
pub struct Keypair {
    pub(crate) bytes: Vec<u8>,
}

impl View for Keypair {
    type V = Seq<u8>;

    closed spec fn view(&self) -> Seq<u8> {
        self.bytes@
    }
}

impl Keypair {
    /// The bytes are a form that the Solana keypair parser accepts.
    pub open spec fn wf(&self) -> bool {
        self@.len() == 64 && keypair_bytes_valid(self@)
    }

    /// The keypair's 64 bytes.
    pub fn as_bytes(&self) -> (r: &[u8])
        ensures
            r@ == self@,
    {
        self.bytes.as_slice()
    }

    /// Takes ownership of candidate bytes, accepting exactly the byte forms
    /// that the Solana keypair parser accepts.
    pub fn from_bytes(b: Vec<u8>) -> (r: Option<Keypair>)
        ensures
            r is Some <==> keypair_bytes_valid(b@),
            r matches Some(k) ==> k@ == b@ && k.wf(),
    {
        if keypair_bytes_check(b.as_slice()) {
            Some(Keypair { bytes: b })
        } else {
            None
        }
    }

    /// The public key half of the keypair bytes.
    pub fn public_key(&self) -> (r: Pubkey)
        requires
            self.wf(),
        ensures
            r.wf(),
            r@ == self@.subrange(32, 64),
    {
        let mut out: Vec<u8> = Vec::new();
        let mut i: usize = 32;
        while i < 64
            invariant
                32 <= i <= 64,
                self@.len() == 64,
                out@ == self@.subrange(32, i as int),
            decreases 64 - i,
        {
            out.push(self.bytes[i]);
            i = i + 1;
            proof {
                assert(out@ =~= self@.subrange(32, i as int));
            }
        }
        Pubkey { bytes: out }
    }
}

/// Relies on `solana_sdk::signature::Keypair::new` and `to_bytes`: a fresh
/// random keypair in its 64-byte form, which the keypair parser accepts.
#[verifier::external_body]
pub(crate) fn generate_keypair_bytes() -> (r: Vec<u8>)
    ensures
        r@.len() == 64,
        keypair_bytes_valid(r@),
{
    solana_sdk::signature::Keypair::new().to_bytes().to_vec()
}

/// Relies on `Keypair::try_from` on a byte slice: it accepts exactly the
/// 64-byte forms whose second half is the public key derived from the first.
#[verifier::external_body]
pub(crate) fn keypair_bytes_check(b: &[u8]) -> (r: bool)
    ensures
        r == keypair_bytes_valid(b@),
        r ==> b@.len() == 64,
{
    solana_sdk::signature::Keypair::try_from(b).is_ok()
}

/// Relies on `Keypair::try_from` and `Signer::sign_message`: the 64-byte
/// ed25519 signature of the message by this keypair.
#[verifier::external_body]
pub(crate) fn sign_message_with(kp: &Keypair, msg: &str) -> (r: Vec<u8>)
    requires
        kp.wf(),
    ensures
        r@ == signature_of(kp@, msg@),
        r@.len() == 64,
{
    let k = solana_sdk::signature::Keypair::try_from(kp.bytes.as_slice()).unwrap();
    solana_sdk::signature::Signer::sign_message(&k, msg.as_bytes()).as_ref().to_vec()
}

/// Relies on `Signature::try_from` (exactly 64 bytes) and
/// `Signature::verify`: whether the signature verifies for this public key
/// and message.
#[verifier::external_body]
pub(crate) fn verify_signature(sig: &[u8], pubkey: &Pubkey, msg: &str) -> (r: bool)
    requires
        sig@.len() == 64,
    ensures
        r == signature_verifies(sig@, pubkey@, msg@),
{
    let s = solana_sdk::signature::Signature::try_from(sig).unwrap();
    s.verify(pubkey.bytes.as_slice(), msg.as_bytes())
}

} // verus!
