use pubtrust::packets::{
    decode, encode, Announcement, ChatMessage, DecodeError, Packet, PacketType, ReqAnnouncement,
};

fn req(version: &str) -> Packet {
    Packet::ReqAnnouncement(ReqAnnouncement { version: version.to_string() })
}

fn ann(alias: &str, pub_key: &str) -> Packet {
    Packet::Announcement(Announcement { alias: alias.to_string(), pub_key: pub_key.to_string() })
}

fn chat(message: &str, signature: &str, timestamp: u64) -> Packet {
    Packet::ChatMessage(ChatMessage {
        message: message.to_string(),
        signature: signature.to_string(),
        timestamp,
    })
}

fn same(a: &Packet, b: &Packet) -> bool {
    match (a, b) {
        (Packet::ReqAnnouncement(x), Packet::ReqAnnouncement(y)) => x.version == y.version,
        (Packet::Announcement(x), Packet::Announcement(y)) => {
            x.alias == y.alias && x.pub_key == y.pub_key
        }
        (Packet::ChatMessage(x), Packet::ChatMessage(y)) => {
            x.message == y.message && x.signature == y.signature && x.timestamp == y.timestamp
        }
        _ => false,
    }
}

fn round_trips(p: Packet) {
    let bytes = encode(&p);
    match decode(&bytes) {
        Ok(q) => assert!(same(&p, &q)),
        Err(e) => panic!("decode failed: {:?}", e),
    }
}

#[test]
fn tags_of_packet_types() {
    assert_eq!(PacketType::ReqAnnouncement.tag(), 1);
    assert_eq!(PacketType::Announcement.tag(), 2);
    assert_eq!(PacketType::ChatMessage.tag(), 3);
    assert_eq!(PacketType::from_tag(2), Some(PacketType::Announcement));
    assert_eq!(PacketType::from_tag(0), None);
    assert_eq!(PacketType::from_tag(4), None);
}

#[test]
fn request_announcement_bytes() {
    let bytes = encode(&req("1.0.0"));
    assert_eq!(bytes, vec![1u8, 0x91, 0xa5, b'1', b'.', b'0', b'.', b'0']);
}

#[test]
fn announcement_bytes() {
    let bytes = encode(&ann("bob", "k"));
    assert_eq!(bytes, vec![2u8, 0x92, 0xa3, b'b', b'o', b'b', 0xa1, b'k']);
}

#[test]
fn chat_bytes_put_timestamp_before_signature() {
    let bytes = encode(&chat("hi", "s", 5));
    assert_eq!(bytes, vec![3u8, 0x93, 0xa2, b'h', b'i', 0x05, 0xa1, b's']);
}

#[test]
fn round_trip_every_variant() {
    round_trips(req("1.0.0"));
    round_trips(ann("alice", "-----BEGIN PUBLIC KEY-----\nabc\n-----END PUBLIC KEY-----\n"));
    round_trips(chat("hello", "c2lnbmF0dXJl", 1_700_000_000));
}

#[test]
fn round_trip_empty_strings_and_largest_timestamp() {
    round_trips(req(""));
    round_trips(ann("", ""));
    round_trips(chat("", "", u64::MAX));
    round_trips(chat("ünïcødé ✓", "x", 0));
    round_trips(chat(&"long ".repeat(100), &"s".repeat(400), u64::MAX - 1));
}

#[test]
fn short_input_is_malformed() {
    assert_eq!(decode(&[]).err(), Some(DecodeError::Malformed));
    assert_eq!(decode(&[1]).err(), Some(DecodeError::Malformed));
    assert_eq!(decode(&[3]).err(), Some(DecodeError::Malformed));
    assert_eq!(decode(&[200]).err(), Some(DecodeError::Malformed));
}

#[test]
fn unknown_tag_is_reported() {
    assert_eq!(decode(&[0, 0x90]).err(), Some(DecodeError::UnknownType(0)));
    assert_eq!(decode(&[9, 1, 2, 3]).err(), Some(DecodeError::UnknownType(9)));
}

#[test]
fn truncated_payload_is_malformed() {
    for p in [req("1.0.0"), ann("bob", "key"), chat("hello", "sig", 1234567)] {
        let bytes = encode(&p);
        for cut in 2..bytes.len() {
            assert_eq!(decode(&bytes[..cut]).err(), Some(DecodeError::Malformed), "cut {}", cut);
        }
    }
}

#[test]
fn payload_of_wrong_schema_is_malformed() {
    let mut bytes = encode(&req("1.0.0"));
    bytes[0] = 3;
    assert_eq!(decode(&bytes).err(), Some(DecodeError::Malformed));
}

#[test]
fn trailing_bytes_after_payload_are_ignored() {
    let mut bytes = encode(&req("1.0.0"));
    bytes.push(0xc0);
    match decode(&bytes) {
        Ok(Packet::ReqAnnouncement(r)) => assert_eq!(r.version, "1.0.0"),
        _ => panic!("expected a request"),
    }
}
