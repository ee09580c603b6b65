use bepinex_gui::bepinex_log::LogLevel;
use bepinex_gui::packet_protocol::{
    decode_packet, encode_packet, packet_bytes_to_utf8_string, read_packet, read_packet_length,
    read_packet_log_level, ByteStream,
};

fn wire_packet(level_bits: u32, payload: &[u8]) -> Vec<u8> {
    let mut bytes = (payload.len() as u32).to_le_bytes().to_vec();
    bytes.extend_from_slice(&level_bits.to_le_bytes());
    bytes.extend_from_slice(payload);
    bytes
}

#[test]
fn encode_packet_lays_out_headers_then_payload() {
    let payload = b"hello".to_vec();
    let encoded = encode_packet(LogLevel::Info, &payload);
    assert_eq!(encoded, wire_packet(0x10, b"hello"));
}

#[test]
fn round_trip_whole_stream() {
    let payload = b"a log line".to_vec();
    let encoded = encode_packet(LogLevel::Warning, &payload);
    let mut stream = ByteStream::whole(encoded);
    let (level, decoded) = decode_packet(&mut stream).unwrap();
    assert_eq!(level, LogLevel::Warning);
    assert_eq!(decoded, payload);
}

#[test]
fn round_trip_every_level() {
    let levels = [
        LogLevel::LevelNone,
        LogLevel::Fatal,
        LogLevel::Error,
        LogLevel::Warning,
        LogLevel::Message,
        LogLevel::Info,
        LogLevel::Debug,
        LogLevel::All,
    ];
    for level in levels {
        let payload = vec![0u8, 1, 2, 250, 255];
        let encoded = encode_packet(level, &payload);
        let mut stream = ByteStream::whole(encoded);
        let (decoded_level, decoded) = decode_packet(&mut stream).unwrap();
        assert_eq!(decoded_level, level);
        assert_eq!(decoded, payload);
    }
}

#[test]
fn round_trip_empty_payload() {
    let payload = Vec::new();
    let encoded = encode_packet(LogLevel::Message, &payload);
    let mut stream = ByteStream::whole(encoded);
    let (level, decoded) = decode_packet(&mut stream).unwrap();
    assert_eq!(level, LogLevel::Message);
    assert!(decoded.is_empty());
}

#[test]
fn one_byte_at_a_time_decodes_the_same() {
    let payload = b"chunked delivery should not matter".to_vec();
    let encoded = encode_packet(LogLevel::Debug, &payload);
    let single_bytes = vec![1usize; encoded.len()];
    let mut trickle = ByteStream::new(encoded.clone(), single_bytes);
    let mut whole = ByteStream::whole(encoded);
    let trickled = decode_packet(&mut trickle).unwrap();
    let direct = decode_packet(&mut whole).unwrap();
    assert_eq!(trickled.0, direct.0);
    assert_eq!(trickled.1, direct.1);
}

#[test]
fn ragged_chunks_decode_the_same() {
    let payload = b"0123456789abcdef".to_vec();
    let encoded = encode_packet(LogLevel::Error, &payload);
    let ragged = vec![3usize, 1, 7, 2, 1, 1, 5, 4, 9];
    let mut stream = ByteStream::new(encoded.clone(), ragged);
    let mut whole = ByteStream::whole(encoded);
    assert_eq!(
        decode_packet(&mut stream).unwrap(),
        decode_packet(&mut whole).unwrap()
    );
}

#[test]
fn truncated_payload_is_an_error() {
    let mut bytes = wire_packet(0x2, b"full payload");
    bytes.truncate(bytes.len() - 3);
    let mut stream = ByteStream::whole(bytes);
    assert!(decode_packet(&mut stream).is_err());
}

#[test]
fn truncated_header_is_an_error() {
    let mut stream = ByteStream::whole(vec![5, 0]);
    assert!(read_packet_length(&mut stream).is_err());
}

#[test]
fn headers_read_in_order() {
    let bytes = wire_packet(0x8, b"xyz");
    let mut stream = ByteStream::whole(bytes);
    let length = read_packet_length(&mut stream).unwrap();
    assert_eq!(length, 3);
    let level = read_packet_log_level(&mut stream).unwrap();
    assert_eq!(level, LogLevel::Message);
    let payload = read_packet(&mut stream, length).unwrap();
    assert_eq!(payload, b"xyz".to_vec());
}

#[test]
fn unknown_level_bits_fall_back_to_all() {
    let bytes = wire_packet(0xdeadbeef, b"?");
    let mut stream = ByteStream::whole(bytes);
    let (level, _) = decode_packet(&mut stream).unwrap();
    assert_eq!(level, LogLevel::All);
}

#[test]
fn level_bits_round_trip() {
    let cases = [
        (0x0u32, LogLevel::LevelNone),
        (0x1, LogLevel::Fatal),
        (0x2, LogLevel::Error),
        (0x4, LogLevel::Warning),
        (0x8, LogLevel::Message),
        (0x10, LogLevel::Info),
        (0x20, LogLevel::Debug),
        (0x3F, LogLevel::All),
    ];
    for (bits, level) in cases {
        assert_eq!(LogLevel::from_bits(bits), level);
        assert_eq!(level.bits(), bits);
    }
    assert_eq!(LogLevel::from_bits(0x3), LogLevel::All);
    assert_eq!(LogLevel::from_bits(0x40), LogLevel::All);
}

#[test]
fn level_ordering_follows_values() {
    assert!(LogLevel::LevelNone.le(LogLevel::Fatal));
    assert!(LogLevel::Fatal.le(LogLevel::Error));
    assert!(LogLevel::Error.le(LogLevel::Warning));
    assert!(LogLevel::Warning.le(LogLevel::Message));
    assert!(LogLevel::Message.le(LogLevel::Info));
    assert!(LogLevel::Info.le(LogLevel::Debug));
    assert!(LogLevel::Debug.le(LogLevel::All));
    assert!(!LogLevel::All.le(LogLevel::Debug));
    assert!(LogLevel::Info.le(LogLevel::Info));
}

#[test]
fn level_rank_round_trip() {
    for rank in 0u8..=7 {
        assert_eq!(LogLevel::from_rank(rank).rank(), rank);
    }
    assert_eq!(LogLevel::from_rank(9), LogLevel::All);
}

#[test]
fn utf8_decoding_is_lossy_not_fatal() {
    let valid = packet_bytes_to_utf8_string(b"plain text");
    assert_eq!(valid, "plain text");
    let invalid = packet_bytes_to_utf8_string(&[0x66, 0xff, 0x67]);
    assert_eq!(invalid, "f\u{fffd}g");
}
