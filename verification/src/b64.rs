//! The unpadded, standard-alphabet base64 transform, taken from the `base64`
//! crate as an already-correct primitive. The library never restates the
//! transform itself: the two spec names below stand for its results, and the
//! two wrappers say only what the crate's source and documentation show.

use vstd::prelude::*;
use base64::Engine;

verus! {

/// The unpadded standard-alphabet base64 encoding of a byte sequence.
pub uninterp spec fn b64_encoding_of(bytes: Seq<u8>) -> Seq<char>;

/// What a text decodes to under the unpadded standard-alphabet base64
/// transform: the decoded bytes, or `None` where the text is not valid
/// unpadded standard base64.
pub uninterp spec fn b64_decoding_of(text: Seq<char>) -> Option<Seq<u8>>;

/// Relies on `base64::Engine::encode` with the `STANDARD_NO_PAD` engine: it
/// returns the unpadded standard-alphabet encoding of the input, a pure
/// function of the bytes alone, whose length is `encoded_len` (4 characters
/// per full 3-byte chunk, 2 or 3 for a trailing partial chunk, no padding),
/// and `Engine::decode_slice` with the same engine recovers exactly the
/// input bytes from it. The length bound keeps `encoded_len` from
/// overflowing, on which `encode` panics.
#[verifier::external_body]
pub(crate) fn b64_encode(bytes: &Vec<u8>) -> (r: String)
    requires
        bytes@.len() * 4 <= usize::MAX,
    ensures
        r@ == b64_encoding_of(bytes@),
        r@.len() == (bytes@.len() * 4 + 2) / 3,
        b64_decoding_of(r@) == Some(bytes@),
{
    base64::engine::general_purpose::STANDARD_NO_PAD.encode(bytes)
}

/// Relies on `base64::Engine::decode_slice` with the `STANDARD_NO_PAD`
/// engine: it writes the decoded bytes at the front of the buffer and
/// returns their count, writes nothing past what it decoded, and fails
/// exactly when the input is not valid unpadded standard base64 or the
/// decoded bytes do not fit in the buffer.
#[verifier::external_body]
pub(crate) fn b64_decode_into(text: &str, buf: &mut Vec<u8>) -> (r: Option<usize>)
    ensures
        final(buf)@.len() == old(buf)@.len(),
        match r {
            Some(n) => {
                &&& n <= final(buf)@.len()
                &&& b64_decoding_of(text@) == Some(final(buf)@.take(n as int))
                &&& forall|i: int| n <= i < final(buf)@.len() ==> final(buf)@[i] == old(buf)@[i]
            },
            None => {
                ||| b64_decoding_of(text@) is None
                ||| (b64_decoding_of(text@) matches Some(bs) && bs.len() > old(buf)@.len())
            },
        },
        (b64_decoding_of(text@) matches Some(bs) && bs.len() <= old(buf)@.len()) ==> r is Some,
{
    base64::engine::general_purpose::STANDARD_NO_PAD
        .decode_slice(text, buf.as_mut_slice())
        .ok()
}

} // verus!
