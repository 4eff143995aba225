//! The base64 text of a frame's bytes.
//!
//! The encoding itself is done by the `base64` crate. The library knows its
//! result by name, together with its length and that it is plain ASCII.

use vstd::prelude::*;
use vstd::utf8::is_ascii_chars;

verus! {

/// The base64 text of `data`: standard alphabet, padded with `=` to a
/// multiple of four characters.
pub uninterp spec fn base64_standard(data: Seq<u8>) -> Seq<char>;

/// The length of the padded base64 text of `len` bytes: four characters for
/// every three bytes, a last group of one or two bytes counted as three.
pub open spec fn encoded_len(len: nat) -> nat {
    4 * ((len + 2) / 3)
}

/// Calls `base64::encode_config` with the configuration `base64::STANDARD`.
///
/// Trusted: the result is the padded standard base64 text of `data`, which
/// has `encoded_len` characters, all of them ASCII (letters, digits, `+`, `/`
/// and `=`). The call panics where that length does not fit `usize`, so such
/// data is left out.
#[verifier::external_body]
pub(crate) fn encode_standard(data: &Vec<u8>) -> (encoded: String)
    requires
        encoded_len(data@.len()) <= usize::MAX,
    ensures
        encoded@ == base64_standard(data@),
        encoded@.len() == encoded_len(data@.len()),
        is_ascii_chars(encoded@),
{
    base64::encode_config(data, base64::STANDARD)
}

} // verus!
