//! The fixed-layout binary codec: a `StreamId` is carried as a 4-byte
//! (publisher) or 7-byte (subscriber) big-endian buffer.
//!
//! Layout: a 16-bit flags field whose top bit is the publisher flag and whose
//! low 15 bits are the version, then the 16-bit user, and — only when the
//! publisher flag is clear — the 16-bit target user and the 1-byte track code.

use vstd::prelude::*;

verus! {

/// Why a decode or an encode failed. Every failure is terminal for the call.
#[derive(Clone, Copy, Debug, PartialEq, Eq)]
pub enum Error {
    /// The text input lacks the required literal prefix.
    InvalidPrefix,
    /// The base64 body is malformed or decodes to more bytes than the
    /// scratch buffer holds.
    InvalidEncoding,
    /// The track byte is not 0, 1, or 2.
    InvalidTrack,
    /// The byte buffer is too short for the field being read or written.
    IO,
}

/// The media channel a subscription points at, stored as one byte on the wire.
#[derive(Clone, Copy, Debug, PartialEq, Eq)]
pub enum StreamTrack {
    Video,
    ContentAudio,
    CommentaryAudio,
}

/// The other user's track that a subscriber identity points at.
#[derive(Clone, Copy, Debug, PartialEq, Eq)]
pub struct StreamTarget {
    pub user: u16,
    pub track: StreamTrack,
}

/// The decoded identifier: an acting user plus an optional subscription
/// target. `target` absent means the user is publishing; present means the
/// user subscribes to another user's track. The distinction is never stored
/// separately — on the wire it is a single bit derived from `target`.
#[derive(Clone, Copy, Debug, PartialEq, Eq)]
pub struct StreamId {
    pub version: u16,
    pub user: u16,
    pub target: Option<StreamTarget>,
}

/// The one-byte wire code of a track.
pub open spec fn wire_byte(t: StreamTrack) -> u8 {
    match t {
        StreamTrack::Video => 0,
        StreamTrack::ContentAudio => 1,
        StreamTrack::CommentaryAudio => 2,
    }
}

/// What decoding one track byte yields: the track for 0, 1, 2, and
/// `InvalidTrack` for everything else.
pub open spec fn parse_track(b: u8) -> Result<StreamTrack, Error> {
    if b == 0 {
        Ok(StreamTrack::Video)
    } else if b == 1 {
        Ok(StreamTrack::ContentAudio)
    } else if b == 2 {
        Ok(StreamTrack::CommentaryAudio)
    } else {
        Err(Error::InvalidTrack)
    }
}

/// The 16-bit value read big-endian from two bytes.
pub open spec fn u16_be(hi: u8, lo: u8) -> u16 {
    (hi as int * 256 + lo as int) as u16
}

/// The high byte of a 16-bit value, as written big-endian.
pub open spec fn be_hi(x: u16) -> u8 {
    (x as int / 256) as u8
}

/// The low byte of a 16-bit value, as written big-endian.
pub open spec fn be_lo(x: u16) -> u8 {
    (x as int % 256) as u8
}

/// The flags field: the publisher flag in bit 15, the version in bits 14..0.
pub open spec fn flags_of(id: StreamId) -> u16 {
    if id.target is None {
        (0x8000 + id.version as int) as u16
    } else {
        id.version
    }
}

/// The wire bytes of an identifier: 4 bytes for a publisher, 7 for a
/// subscriber.
pub open spec fn wire_of(id: StreamId) -> Seq<u8> {
    let head = seq![
        be_hi(flags_of(id)),
        be_lo(flags_of(id)),
        be_hi(id.user),
        be_lo(id.user),
    ];
    match id.target {
        None => head,
        Some(t) => head.push(be_hi(t.user)).push(be_lo(t.user)).push(wire_byte(t.track)),
    }
}

/// What decoding a wire buffer yields. Exactly 4 or 7 bytes are read;
/// trailing bytes are never interpreted. A buffer too short for the fields
/// the flag bit calls for is an `IO` underflow.
pub open spec fn parse_wire(bytes: Seq<u8>) -> Result<StreamId, Error> {
    if bytes.len() < 4 {
        Err(Error::IO)
    } else {
        let flags = u16_be(bytes[0], bytes[1]);
        let version = (if flags >= 0x8000 { flags - 0x8000 } else { flags as int }) as u16;
        let user = u16_be(bytes[2], bytes[3]);
        if flags >= 0x8000 {
            Ok(StreamId { version, user, target: None })
        } else if bytes.len() < 7 {
            Err(Error::IO)
        } else {
            match parse_track(bytes[6]) {
                Err(e) => Err(e),
                Ok(track) => Ok(StreamId {
                    version,
                    user,
                    target: Some(StreamTarget { user: u16_be(bytes[4], bytes[5]), track }),
                }),
            }
        }
    }
}

impl StreamTrack {
    /// The wire code of this track.
    pub fn to_u8(self) -> (r: u8)
        ensures
            r == wire_byte(self),
    {
        match self {
            StreamTrack::Video => 0,
            StreamTrack::ContentAudio => 1,
            StreamTrack::CommentaryAudio => 2,
        }
    }

    /// The track a wire byte denotes; bytes other than 0, 1, 2 are rejected.
    pub fn from_u8(b: u8) -> (r: Result<StreamTrack, Error>)
        ensures
            r == parse_track(b),
    {
        match b {
            0 => Ok(StreamTrack::Video),
            1 => Ok(StreamTrack::ContentAudio),
            2 => Ok(StreamTrack::CommentaryAudio),
            _ => Err(Error::InvalidTrack),
        }
    }
}

impl StreamId {
    /// A well-formed identifier: the version fits in the 15 bits the wire
    /// layout grants it, leaving bit 15 to the publisher flag alone.
    pub open spec fn wf(self) -> bool {
        self.version <= 0x7FFF
    }

    /// Whether this identifier denotes a publisher: definitionally, the
    /// absence of a target.
    pub fn is_publisher(&self) -> (r: bool)
        ensures
            r == (self.target is None),
    {
        self.target.is_none()
    }

    /// Decode an identifier from the front of a wire buffer.
    ///
    /// Reads exactly 4 or exactly 7 bytes, as the publisher flag dictates,
    /// and never looks at trailing bytes.
    pub fn decode(buf: &[u8]) -> (r: Result<Self, Error>)
        ensures
            r == parse_wire(buf@),
    {
        if buf.len() < 4 {
            return Err(Error::IO);
        }
        let flags: u16 = (buf[0] as u16) * 256 + (buf[1] as u16);
        let publisher: bool = flags >= 0x8000;
        let version: u16 = if publisher { flags - 0x8000 } else { flags };
        let user: u16 = (buf[2] as u16) * 256 + (buf[3] as u16);
        let target: Option<StreamTarget> = if !publisher {
            if buf.len() < 7 {
                return Err(Error::IO);
            }
            let track = match StreamTrack::from_u8(buf[6]) {
                Ok(t) => t,
                Err(e) => {
                    return Err(e);
                },
            };
            Some(StreamTarget { user: (buf[4] as u16) * 256 + (buf[5] as u16), track })
        } else {
            None
        };
        Ok(StreamId { version, user, target })
    }

    /// Encode this identifier at the front of `buf`, which the caller sizes
    /// to at least the largest layout (7 bytes).
    ///
    /// Returns the number of bytes written — exactly 4 for a publisher,
    /// exactly 7 for a subscriber; the caller must truncate to that count.
    /// Bytes past the written count are left untouched, and nothing is ever
    /// written past the 7th byte.
    pub fn encode(&self, buf: &mut Vec<u8>) -> (r: Result<usize, Error>)
        requires
            self.wf(),
            old(buf).len() >= 7,
        ensures
            r == Ok::<usize, Error>(if self.target is None { 4usize } else { 7usize }),
            wire_of(*self).len() == (if self.target is None { 4int } else { 7int }),
            final(buf)@.len() == old(buf)@.len(),
            final(buf)@.take(wire_of(*self).len() as int) == wire_of(*self),
            forall|i: int|
                wire_of(*self).len() <= i < final(buf)@.len() ==> final(buf)@[i] == old(buf)@[i],
    {
        let flags: u16 = if self.target.is_none() {
            0x8000 + self.version
        } else {
            self.version
        };
        buf[0] = (flags / 256) as u8;
        buf[1] = (flags % 256) as u8;
        buf[2] = (self.user / 256) as u8;
        buf[3] = (self.user % 256) as u8;
        match &self.target {
            None => {
                proof {
                    assert(buf@.take(4) =~= wire_of(*self));
                }
                Ok(4)
            },
            Some(t) => {
                buf[4] = (t.user / 256) as u8;
                buf[5] = (t.user % 256) as u8;
                buf[6] = t.track.to_u8();
                proof {
                    assert(buf@.take(7) =~= wire_of(*self));
                }
                Ok(7)
            },
        }
    }
}

/// Law: the binary codec round-trips. Decoding the wire bytes of any
/// well-formed identifier yields that identifier, field for field.
pub proof fn lemma_binary_round_trip(v: StreamId)
    requires
        v.wf(),
    ensures
        parse_wire(wire_of(v)) == Ok::<StreamId, Error>(v),
{
    let w = wire_of(v);
    lemma_u16_be_recompose(flags_of(v));
    lemma_u16_be_recompose(v.user);
    match v.target {
        None => {
            assert(w.len() == 4);
        },
        Some(t) => {
            lemma_u16_be_recompose(t.user);
            assert(parse_track(wire_byte(t.track)) == Ok::<StreamTrack, Error>(t.track));
        },
    }
}

/// Law: the publisher flag is exactly bit 15 of the first 16-bit field. A
/// buffer decodes to an identifier without a target iff that bit is set.
pub proof fn lemma_publisher_bit(bytes: Seq<u8>, v: StreamId)
    requires
        parse_wire(bytes) == Ok::<StreamId, Error>(v),
    ensures
        (v.target is None) <==> u16_be(bytes[0], bytes[1]) >= 0x8000,
{
}

/// Law: the track mapping is a bijection between the three variants and the
/// bytes 0, 1, 2; every byte 3 or above is rejected.
pub proof fn lemma_track_bijection(t: StreamTrack, b: u8)
    ensures
        parse_track(wire_byte(t)) == Ok::<StreamTrack, Error>(t),
        b > 2 ==> parse_track(b) == Err::<StreamTrack, Error>(Error::InvalidTrack),
{
}

/// Splitting a 16-bit value into its big-endian bytes loses nothing.
proof fn lemma_u16_be_recompose(x: u16)
    ensures
        u16_be(be_hi(x), be_lo(x)) == x,
{
    assert(x as int / 256 * 256 + x as int % 256 == x as int) by (nonlinear_arith);
}

} // verus!
