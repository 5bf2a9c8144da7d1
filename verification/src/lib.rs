//! A compact binary identifier for media-stream addressing ("StreamId"),
//! together with a prefixed, unpadded-base64 text envelope of the same
//! identifier suitable for protocol strings and URLs.

pub mod b64;
pub mod codec;
pub mod text;

pub use codec::Error;
pub use codec::StreamId;
pub use codec::StreamTarget;
pub use codec::StreamTrack;
pub use codec::lemma_binary_round_trip;
pub use codec::lemma_publisher_bit;
pub use codec::lemma_track_bijection;
pub use codec::parse_track;
pub use codec::parse_wire;
pub use codec::wire_of;
pub use text::decode_streamid;
pub use text::encode_streamid;
pub use text::encode_streamid_urisafe;
pub use text::parse_text;
pub use text::plain_prefix;
pub use text::uri_prefix;
