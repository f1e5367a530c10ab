//! What this crate takes on trust from other crates.
//!
//! Nothing in this module is proved. Each item names the function or type it
//! stands for and says what is claimed of it.
use base64::DecodeError;
use vstd::prelude::*;

use crate::tab::InvalidImageData;

verus! {

/// `serde_json::Value`: one JSON value of any shape. The crate carries such
/// values from one place to another and never looks inside them.
#[verifier::external_type_specification]
#[verifier::external_body]
pub struct ExJsonValue(serde_json::Value);

/// What `base64::decode` makes of a text in the standard alphabet: the bytes
/// it yields, or the error it reports.
pub uninterp spec fn base64_decoded(text: Seq<char>) -> Result<Seq<u8>, InvalidImageData>;

/// True where a text is short enough to hand to `base64::decode`, which
/// reserves four thirds of its length in bytes and computes that as the
/// length times four, divided by three.
pub open spec fn base64_fits(text: Seq<char>) -> bool {
    vstd::utf8::encode_utf8(text).len() as usize <= usize::MAX / 4
}

/// Calls `base64::decode`. Claimed: on a text for which four times its
/// length in bytes fits a `usize` the call returns, and the outcome depends
/// on the text alone, so it is the named result [`base64_decoded`] of that
/// text. An error comes back as the library's [`InvalidImageData`], variant
/// for variant and field for field.
#[verifier::external_body]
pub(crate) fn base64_decode(text: &str) -> (r: Result<Vec<u8>, InvalidImageData>)
    requires
        base64_fits(text@),
    ensures
        match r {
            Ok(bytes) => base64_decoded(text@) == Ok::<Seq<u8>, InvalidImageData>(bytes@),
            Err(error) => base64_decoded(text@) == Err::<Seq<u8>, InvalidImageData>(error),
        },
{
    match base64::decode(text) {
        Ok(bytes) => Ok(bytes),
        Err(DecodeError::InvalidByte(at, byte)) => Err(InvalidImageData::InvalidByte(at, byte)),
        Err(DecodeError::InvalidLength) => Err(InvalidImageData::InvalidLength),
        Err(DecodeError::InvalidLastSymbol(at, byte)) => Err(
            InvalidImageData::InvalidLastSymbol(at, byte),
        ),
    }
}

/// Calls `<serde_json::Value as Clone>::clone`. Claimed: the copy equals the
/// value it was made from.
#[verifier::external_body]
pub(crate) fn clone_json(value: &serde_json::Value) -> (r: serde_json::Value)
    ensures
        r == *value,
{
    value.clone()
}

} // verus!
