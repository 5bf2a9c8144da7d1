use base64::Engine;
use streamid::{
    decode_streamid, encode_streamid, encode_streamid_urisafe, Error, StreamId, StreamTarget,
    StreamTrack,
};

fn publisher(version: u16, user: u16) -> StreamId {
    StreamId { version, user, target: None }
}

fn subscriber(version: u16, user: u16, target_user: u16, track: StreamTrack) -> StreamId {
    StreamId { version, user, target: Some(StreamTarget { user: target_user, track }) }
}

#[test]
fn encode_known_publisher() {
    assert_eq!(encode_streamid(publisher(1, 5)), "#!RgAEABQ");
}

#[test]
fn encode_known_subscriber() {
    let v = subscriber(2, 9, 256, StreamTrack::CommentaryAudio);
    assert_eq!(encode_streamid(v), "#!RAAIACQEAAg");
}

#[test]
fn encode_urisafe_known_publisher() {
    assert_eq!(encode_streamid_urisafe(publisher(1, 5)), "%23!RgAEABQ");
}

#[test]
fn decode_known_text() {
    assert_eq!(decode_streamid("#!RgAEABQ"), Ok(publisher(1, 5)));
    assert_eq!(
        decode_streamid("#!RAAIACQEAAg"),
        Ok(subscriber(2, 9, 256, StreamTrack::CommentaryAudio))
    );
}

#[test]
fn text_round_trip() {
    let values = [
        publisher(0, 0),
        publisher(32767, 65535),
        publisher(1, 5),
        subscriber(0, 0, 0, StreamTrack::Video),
        subscriber(32767, 65535, 65535, StreamTrack::CommentaryAudio),
        subscriber(300, 17, 4, StreamTrack::ContentAudio),
    ];
    for v in values {
        assert_eq!(decode_streamid(&encode_streamid(v)), Ok(v));
    }
}

#[test]
fn urisafe_fails_plain_decode_but_unescaping_recovers() {
    let values = [publisher(1, 5), subscriber(300, 17, 4, StreamTrack::ContentAudio)];
    for v in values {
        let escaped = encode_streamid_urisafe(v);
        assert_eq!(decode_streamid(&escaped), Err(Error::InvalidPrefix));
        let unescaped = format!("#{}", &escaped[3..]);
        assert_eq!(decode_streamid(&unescaped), Ok(v));
    }
}

#[test]
fn missing_prefix_is_rejected() {
    assert_eq!(decode_streamid("XYZgAEABQ"), Err(Error::InvalidPrefix));
    assert_eq!(decode_streamid(""), Err(Error::InvalidPrefix));
    assert_eq!(decode_streamid("#!r"), Err(Error::InvalidPrefix));
    assert_eq!(decode_streamid("!R#gAEABQ"), Err(Error::InvalidPrefix));
    assert_eq!(decode_streamid(" #!RgAEABQ"), Err(Error::InvalidPrefix));
}

#[test]
fn malformed_base64_is_rejected() {
    assert_eq!(decode_streamid("#!R????"), Err(Error::InvalidEncoding));
    assert_eq!(decode_streamid("#!RgAEABQ="), Err(Error::InvalidEncoding));
}

#[test]
fn oversized_payload_is_rejected() {
    let big = base64::engine::general_purpose::STANDARD_NO_PAD.encode([0u8; 18]);
    let text = format!("#!R{big}");
    assert_eq!(decode_streamid(&text), Err(Error::InvalidEncoding));
}

#[test]
fn short_payload_is_an_io_error() {
    let short = base64::engine::general_purpose::STANDARD_NO_PAD.encode([0x00, 0x01, 0x00, 0x05]);
    let text = format!("#!R{short}");
    assert_eq!(text, "#!RAAEABQ");
    assert_eq!(decode_streamid(&text), Err(Error::IO));
    assert_eq!(decode_streamid("#!R"), Err(Error::IO));
}
