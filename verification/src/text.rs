//! The text envelope: a literal prefix plus the unpadded standard-alphabet
//! base64 of the wire bytes. Decoding strips and checks the prefix, base64-
//! decodes the remainder into a fixed 16-byte scratch buffer, and hands the
//! decoded bytes to the binary codec.

use vstd::prelude::*;
use vstd::string::*;
use crate::b64::b64_decode_into;
use crate::b64::b64_decoding_of;
use crate::b64::b64_encode;
use crate::b64::b64_encoding_of;
use crate::codec::Error;
use crate::codec::StreamId;
use crate::codec::lemma_binary_round_trip;
use crate::codec::parse_wire;
use crate::codec::wire_of;

verus! {

/// The literal prefix of the plain text form.
pub open spec fn plain_prefix() -> Seq<char> {
    seq!['#', '!', 'R']
}

/// The literal prefix of the URL-safe text form: the same prefix with its
/// `#` percent-escaped.
pub open spec fn uri_prefix() -> Seq<char> {
    seq!['%', '2', '3', '!', 'R']
}

/// What decoding a text yields: `InvalidPrefix` where the literal prefix is
/// missing, `InvalidEncoding` where the remainder is not valid unpadded
/// standard base64 or decodes to more than the 16-byte scratch buffer holds,
/// and otherwise whatever the binary codec makes of the decoded bytes.
pub open spec fn parse_text(s: Seq<char>) -> Result<StreamId, Error> {
    if s.len() < 3 || s.take(3) != plain_prefix() {
        Err(Error::InvalidPrefix)
    } else {
        match b64_decoding_of(s.skip(3)) {
            None => Err(Error::InvalidEncoding),
            Some(bs) => if bs.len() > 16 {
                Err(Error::InvalidEncoding)
            } else {
                parse_wire(bs)
            },
        }
    }
}

/// The zero-filled scratch buffer the envelope works in: 16 bytes, headroom
/// over the largest 7-byte payload.
fn scratch_buffer() -> (v: Vec<u8>)
    ensures
        v@.len() == 16,
        forall|i: int| 0 <= i < 16 ==> v@[i] == 0u8,
{
    let mut v: Vec<u8> = Vec::new();
    let mut i: usize = 0;
    while i < 16
        invariant
            i <= 16,
            v@.len() == i,
            forall|j: int| 0 <= j < i ==> v@[j] == 0u8,
        decreases 16 - i,
    {
        v.push(0);
        i = i + 1;
    }
    v
}

/// Decode the text form of an identifier: check and strip the `#!R` prefix,
/// base64-decode the remainder, and decode the resulting wire bytes.
pub fn decode_streamid(input: &str) -> (r: Result<StreamId, Error>)
    ensures
        r == parse_text(input@),
{
    let len: usize = input.unicode_len();
    if len < 3 {
        return Err(Error::InvalidPrefix);
    }
    if input.get_char(0) != '#' || input.get_char(1) != '!' || input.get_char(2) != 'R' {
        proof {
            if input@.take(3) == plain_prefix() {
                assert(input@.take(3)[0] == input@[0]);
                assert(input@.take(3)[1] == input@[1]);
                assert(input@.take(3)[2] == input@[2]);
            }
        }
        return Err(Error::InvalidPrefix);
    }
    proof {
        assert(input@.take(3) =~= plain_prefix());
    }
    let body = input.substring_char(3, len);
    proof {
        assert(body@ =~= input@.skip(3));
    }
    let mut buf = scratch_buffer();
    match b64_decode_into(body, &mut buf) {
        None => Err(Error::InvalidEncoding),
        Some(n) => {
            buf.truncate(n);
            StreamId::decode(buf.as_slice())
        },
    }
}

/// Encode an identifier in the plain text form: the `#!R` prefix plus the
/// unpadded base64 of the wire bytes.
///
/// Law (text round-trip): the second clause states that decoding the
/// returned text yields the encoded identifier again.
pub fn encode_streamid(input: StreamId) -> (r: String)
    requires
        input.wf(),
    ensures
        r@ == plain_prefix() + b64_encoding_of(wire_of(input)),
        parse_text(r@) == Ok::<StreamId, Error>(input),
{
    let mut buf = scratch_buffer();
    let size: usize = match input.encode(&mut buf) {
        Ok(n) => n,
        Err(_) => 0,
    };
    buf.truncate(size);
    proof {
        assert(buf@ =~= wire_of(input));
    }
    let body = b64_encode(&buf);
    let mut out = String::from_str("#!R");
    out.append(body.as_str());
    proof {
        reveal_strlit("#!R");
        assert("#!R"@ =~= plain_prefix());
        assert(out@ =~= plain_prefix() + b64_encoding_of(wire_of(input)));
        assert(out@.take(3) =~= plain_prefix());
        assert(out@.skip(3) =~= b64_encoding_of(wire_of(input)));
        lemma_binary_round_trip(input);
    }
    out
}

/// Encode an identifier in the URL-safe text form: as `encode_streamid`, but
/// under the percent-escaped prefix `%23!R`.
///
/// The second clause states that the plain decoder rejects this form over
/// its prefix; the third that unescaping the prefix — replacing the leading
/// `%23` by `#` — yields a text the plain decoder accepts, back to the
/// encoded identifier.
pub fn encode_streamid_urisafe(input: StreamId) -> (r: String)
    requires
        input.wf(),
    ensures
        r@ == uri_prefix() + b64_encoding_of(wire_of(input)),
        parse_text(r@) == Err::<StreamId, Error>(Error::InvalidPrefix),
        parse_text(seq!['#'] + r@.skip(3)) == Ok::<StreamId, Error>(input),
{
    let mut buf = scratch_buffer();
    let size: usize = match input.encode(&mut buf) {
        Ok(n) => n,
        Err(_) => 0,
    };
    buf.truncate(size);
    proof {
        assert(buf@ =~= wire_of(input));
    }
    let body = b64_encode(&buf);
    let mut out = String::from_str("%23!R");
    out.append(body.as_str());
    proof {
        reveal_strlit("%23!R");
        assert("%23!R"@ =~= uri_prefix());
        assert(out@ =~= uri_prefix() + b64_encoding_of(wire_of(input)));
        if out@.take(3) == plain_prefix() {
            assert(out@.take(3)[0] == out@[0]);
        }
        let unescaped = seq!['#'] + out@.skip(3);
        assert(unescaped.take(3) =~= plain_prefix());
        assert(unescaped.skip(3) =~= b64_encoding_of(wire_of(input)));
        lemma_binary_round_trip(input);
    }
    out
}

} // verus!
