//! Base64 for the clipboard side channel, behind trusted wrappers.
//!
//! The encoding itself is done by the `base64` crate (standard alphabet,
//! padded). What it returns is a function of the input bytes alone; the two
//! names below stand for those results, and the dispatcher's contracts are
//! exact in terms of them.

use vstd::prelude::*;
use base64::Engine;

verus! {

/// The standard padded base64 rendering of `data`.
pub uninterp spec fn base64_of(data: Seq<u8>) -> Seq<u8>;

/// The bytes a standard base64 decode of `data` yields, if `data` is valid
/// base64.
pub uninterp spec fn base64_decode_of(data: Seq<u8>) -> Option<Seq<u8>>;

/// Relies on `base64::engine::general_purpose::STANDARD.encode`: the padded
/// standard-alphabet rendering, a function of the input alone; empty input
/// gives empty output.
#[verifier::external_body]
pub fn encode_base64(data: &[u8]) -> (r: Vec<u8>)
    ensures
        r@ == base64_of(data@),
        data@.len() == 0 ==> r@.len() == 0,
{
    base64::engine::general_purpose::STANDARD.encode(data).into_bytes()
}

/// Relies on `base64::engine::general_purpose::STANDARD.decode`: decodes the
/// padded standard alphabet, `Ok` exactly on valid input, a function of the
/// input alone.
#[verifier::external_body]
pub fn decode_base64(data: &[u8]) -> (r: Option<Vec<u8>>)
    ensures
        match r {
            Some(v) => base64_decode_of(data@) == Some(v@),
            None => base64_decode_of(data@) is None,
        },
{
    match base64::engine::general_purpose::STANDARD.decode(data) {
        Ok(v) => Some(v),
        Err(_) => None,
    }
}

} // verus!
