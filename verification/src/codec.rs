//! Base58 and base64 text encodings, reached through trusted wrappers.
//!
//! The encodings themselves are delegated: each outside encoder gets an
//! uninterpreted name for its result, and the wrappers state how the named
//! results relate (a decode of an encode gives the bytes back).

use vstd::prelude::*;

verus! {

/// The base58 text that `bs58::encode` produces for the given bytes.
pub uninterp spec fn base58_of(b: Seq<u8>) -> Seq<char>;

/// What `bs58::decode` gives for the given text: the decoded bytes, or
/// `None` where the text is not well-formed base58.
pub uninterp spec fn base58_decoded(s: Seq<char>) -> Option<Seq<u8>>;

/// The base64 text that the standard engine of the `base64` crate produces
/// for the given bytes.
pub uninterp spec fn base64_of(b: Seq<u8>) -> Seq<char>;

/// What the standard engine's decode gives for the given text: the decoded
/// bytes, or `None` where the text is not well-formed base64.
pub uninterp spec fn base64_decoded(s: Seq<char>) -> Option<Seq<u8>>;

/// What `str::trim` leaves of the given text.
pub uninterp spec fn trimmed(s: Seq<char>) -> Seq<char>;

/// Whether the text is empty or whitespace alone.
pub open spec fn blank(s: Seq<char>) -> bool {
    trimmed(s).len() == 0
}

/// Relies on `bs58::encode`: base58 text for the bytes; decoding that text
/// gives the bytes back.
#[verifier::external_body]
pub(crate) fn base58_encode(b: &[u8]) -> (r: String)
    ensures
        r@ == base58_of(b@),
        base58_decoded(r@) == Some(b@),
{
    bs58::encode(b).into_string()
}

/// Relies on `bs58::decode`: `Some` exactly on well-formed base58 text.
#[verifier::external_body]
pub(crate) fn base58_decode(s: &str) -> (r: Option<Vec<u8>>)
    ensures
        match r {
            Some(v) => base58_decoded(s@) == Some(v@),
            None => base58_decoded(s@) is None,
        },
{
    bs58::decode(s).into_vec().ok()
}

/// Relies on the `base64` crate's `STANDARD` engine: base64 text for the
/// bytes; decoding that text gives the bytes back.
#[verifier::external_body]
pub(crate) fn base64_encode(b: &[u8]) -> (r: String)
    ensures
        r@ == base64_of(b@),
        base64_decoded(r@) == Some(b@),
{
    base64::Engine::encode(&base64::engine::general_purpose::STANDARD, b)
}

/// Relies on the `base64` crate's `STANDARD` engine: `Some` exactly on
/// well-formed base64 text.
#[verifier::external_body]
pub(crate) fn base64_decode(s: &str) -> (r: Option<Vec<u8>>)
    ensures
        match r {
            Some(v) => base64_decoded(s@) == Some(v@),
            None => base64_decoded(s@) is None,
        },
{
    base64::Engine::decode(&base64::engine::general_purpose::STANDARD, s).ok()
}

/// Relies on `str::trim`: the text without leading and trailing whitespace.
#[verifier::external_body]
pub(crate) fn trim_str<'a>(s: &'a str) -> (r: &'a str)
    ensures
        r@ == trimmed(s@),
{
    s.trim()
}

} // verus!
