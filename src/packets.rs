//! Packets on the wire: one tag byte, then the payload's fields as a
//! MessagePack array.

use vstd::prelude::*;

use crate::signing::text_view;

verus! {

/// The kinds of packet, each with its tag byte.
#[derive(Clone, Copy, Debug, PartialEq, Eq, Structural)]
pub enum PacketType {
    ReqAnnouncement,
    Announcement,
    ChatMessage,
}

impl PacketType {
    pub open spec fn spec_tag(self) -> u8 {
        match self {
            PacketType::ReqAnnouncement => 1,
            PacketType::Announcement => 2,
            PacketType::ChatMessage => 3,
        }
    }

    /// The tag byte that starts a packet of this kind.
    pub fn tag(&self) -> (r: u8)
        ensures
            r == self.spec_tag(),
    {
        match self {
            PacketType::ReqAnnouncement => 1,
            PacketType::Announcement => 2,
            PacketType::ChatMessage => 3,
        }
    }

    /// The kind of packet a tag byte stands for, if any.
    pub fn from_tag(tag: u8) -> (r: Option<PacketType>)
        ensures
            r matches Some(t) ==> t.spec_tag() == tag,
            r is None <==> !(1 <= tag <= 3),
    {
        if tag == 1 {
            Some(PacketType::ReqAnnouncement)
        } else if tag == 2 {
            Some(PacketType::Announcement)
        } else if tag == 3 {
            Some(PacketType::ChatMessage)
        } else {
            None
        }
    }
}

/// Asks every listening peer to announce itself.
pub struct ReqAnnouncement {
    pub version: String,
}

/// Binds a display alias to a public key (PEM text).
pub struct Announcement {
    pub alias: String,
    pub pub_key: String,
}

/// A chat message with its send time (seconds since the epoch) and the
/// base64 signature over both.
pub struct ChatMessage {
    pub message: String,
    pub signature: String,
    pub timestamp: u64,
}

/// Opens a direct conversation: `shared_secret` is encrypted for the peer
/// whose public key hashes to `for_hash`.
pub struct DirectMessageShare {
    pub for_hash: String,
    pub shared_secret: String,
}

/// A direct message, encrypted with a shared secret, for the peer whose
/// public key hashes to `to_hash`.
pub struct DirectMessage {
    pub to_hash: String,
    pub message: String,
    pub signature: String,
    pub timestamp: u64,
}

/// A packet of any kind.
pub enum Packet {
    ReqAnnouncement(ReqAnnouncement),
    Announcement(Announcement),
    ChatMessage(ChatMessage),
}

/// What a packet holds, as mathematical values.
pub enum PacketModel {
    ReqAnnouncement { version: Seq<char> },
    Announcement { alias: Seq<char>, pub_key: Seq<char> },
    ChatMessage { message: Seq<char>, timestamp: u64, signature: Seq<char> },
}

impl View for Packet {
    type V = PacketModel;

    open spec fn view(&self) -> PacketModel {
        match self {
            Packet::ReqAnnouncement(p) => PacketModel::ReqAnnouncement { version: p.version@ },
            Packet::Announcement(p) => PacketModel::Announcement {
                alias: p.alias@,
                pub_key: p.pub_key@,
            },
            Packet::ChatMessage(p) => PacketModel::ChatMessage {
                message: p.message@,
                timestamp: p.timestamp,
                signature: p.signature@,
            },
        }
    }
}

/// Why a byte string is no packet.
#[derive(Clone, Copy, Debug, PartialEq, Eq, Structural)]
pub enum DecodeError {
    /// The tag byte names no packet kind.
    UnknownType(u8),
    /// Under two bytes, or a payload that does not read as the tag's fields.
    Malformed,
}

/// The MessagePack array `[version]` that rmp-serde writes.
pub uninterp spec fn packed_version(version: Seq<char>) -> Seq<u8>;

/// The MessagePack array `[alias, pub_key]` that rmp-serde writes.
pub uninterp spec fn packed_announcement(alias: Seq<char>, pub_key: Seq<char>) -> Seq<u8>;

/// The MessagePack array `[message, timestamp, signature]` that rmp-serde writes.
pub uninterp spec fn packed_chat(message: Seq<char>, timestamp: u64, signature: Seq<char>) -> Seq<u8>;

/// The field that rmp-serde reads from `b` as a one-string array, if it does.
pub uninterp spec fn unpacked_version(b: Seq<u8>) -> Option<Seq<char>>;

/// The fields that rmp-serde reads from `b` as an array of two strings, if it does.
pub uninterp spec fn unpacked_announcement(b: Seq<u8>) -> Option<(Seq<char>, Seq<char>)>;

/// The fields that rmp-serde reads from `b` as an array of a string, an
/// unsigned integer and a string, if it does.
pub uninterp spec fn unpacked_chat(b: Seq<u8>) -> Option<(Seq<char>, u64, Seq<char>)>;

/// Relies on `rmp_serde::to_vec` on a one-tuple: an array header, then the
/// string. Writing into a `Vec` fails only when memory runs out.
#[verifier::external_body]
fn pack_version(version: &String) -> (r: Vec<u8>)
    ensures
        r@ == packed_version(version@),
        r@.len() > 0,
{
    rmp_serde::to_vec(&(version,)).expect("out of memory")
}

/// Relies on `rmp_serde::to_vec` on a pair of strings: an array header, then
/// the strings.
#[verifier::external_body]
fn pack_announcement(alias: &String, pub_key: &String) -> (r: Vec<u8>)
    ensures
        r@ == packed_announcement(alias@, pub_key@),
        r@.len() > 0,
{
    rmp_serde::to_vec(&(alias, pub_key)).expect("out of memory")
}

/// Relies on `rmp_serde::to_vec` on a triple: an array header, then the fields.
#[verifier::external_body]
fn pack_chat(message: &String, timestamp: u64, signature: &String) -> (r: Vec<u8>)
    ensures
        r@ == packed_chat(message@, timestamp, signature@),
        r@.len() > 0,
{
    rmp_serde::to_vec(&(message, timestamp, signature)).expect("out of memory")
}

/// Relies on `rmp_serde::from_slice` into a one-tuple of `String`.
#[verifier::external_body]
fn unpack_version(b: &[u8]) -> (r: Option<String>)
    ensures
        text_view(r) == unpacked_version(b@),
{
    rmp_serde::from_slice::<(String,)>(b).ok().map(|t| t.0)
}

/// Relies on `rmp_serde::from_slice` into a pair of `String`.
#[verifier::external_body]
fn unpack_announcement(b: &[u8]) -> (r: Option<(String, String)>)
    ensures
        match r {
            Some(t) => unpacked_announcement(b@) == Some((t.0@, t.1@)),
            None => unpacked_announcement(b@) is None,
        },
{
    rmp_serde::from_slice::<(String, String)>(b).ok()
}

/// Relies on `rmp_serde::from_slice` into a `(String, u64, String)`.
#[verifier::external_body]
fn unpack_chat(b: &[u8]) -> (r: Option<(String, u64, String)>)
    ensures
        match r {
            Some(t) => unpacked_chat(b@) == Some((t.0@, t.1, t.2@)),
            None => unpacked_chat(b@) is None,
        },
{
    rmp_serde::from_slice::<(String, u64, String)>(b).ok()
}

/// The bytes of a packet: its tag, then its fields packed.
pub open spec fn encoding(p: PacketModel) -> Seq<u8> {
    match p {
        PacketModel::ReqAnnouncement { version } => seq![1u8] + packed_version(version),
        PacketModel::Announcement { alias, pub_key } => seq![2u8] + packed_announcement(
            alias,
            pub_key,
        ),
        PacketModel::ChatMessage { message, timestamp, signature } => seq![3u8] + packed_chat(
            message,
            timestamp,
            signature,
        ),
    }
}

/// What a byte string reads as: under two bytes it is malformed; else the
/// first byte picks the schema that the rest is read with.
pub open spec fn decoding(b: Seq<u8>) -> Result<PacketModel, DecodeError> {
    if b.len() < 2 {
        Err(DecodeError::Malformed)
    } else {
        let payload = b.subrange(1, b.len() as int);
        if b[0] == 1 {
            match unpacked_version(payload) {
                Some(version) => Ok(PacketModel::ReqAnnouncement { version }),
                None => Err(DecodeError::Malformed),
            }
        } else if b[0] == 2 {
            match unpacked_announcement(payload) {
                Some((alias, pub_key)) => Ok(PacketModel::Announcement { alias, pub_key }),
                None => Err(DecodeError::Malformed),
            }
        } else if b[0] == 3 {
            match unpacked_chat(payload) {
                Some((message, timestamp, signature)) => Ok(
                    PacketModel::ChatMessage { message, timestamp, signature },
                ),
                None => Err(DecodeError::Malformed),
            }
        } else {
            Err(DecodeError::UnknownType(b[0]))
        }
    }
}

pub open spec fn result_view(r: Result<Packet, DecodeError>) -> Result<PacketModel, DecodeError> {
    match r {
        Ok(p) => Ok(p@),
        Err(e) => Err(e),
    }
}

impl Packet {
    /// The kind of this packet.
    pub fn packet_type(&self) -> (r: PacketType)
        ensures
            r.spec_tag() == encoding(self@)[0],
    {
        match self {
            Packet::ReqAnnouncement(_) => PacketType::ReqAnnouncement,
            Packet::Announcement(_) => PacketType::Announcement,
            Packet::ChatMessage(_) => PacketType::ChatMessage,
        }
    }
}

fn framed(tag: u8, payload: Vec<u8>) -> (r: Vec<u8>)
    ensures
        r@ == seq![tag] + payload@,
{
    let mut out: Vec<u8> = Vec::new();
    out.push(tag);
    let mut i: usize = 0;
    while i < payload.len()
        invariant
            i <= payload@.len(),
            out@ == seq![tag] + payload@.subrange(0, i as int),
        decreases payload@.len() - i,
    {
        out.push(payload[i]);
        i = i + 1;
        assert(out@ == seq![tag] + payload@.subrange(0, i as int));
    }
    assert(payload@.subrange(0, payload@.len() as int) == payload@);
    out
}

/// The wire bytes of a packet.
pub fn encode(packet: &Packet) -> (r: Vec<u8>)
    ensures
        r@ == encoding(packet@),
{
    let tag = packet.packet_type().tag();
    match packet {
        Packet::ReqAnnouncement(p) => framed(tag, pack_version(&p.version)),
        Packet::Announcement(p) => framed(tag, pack_announcement(&p.alias, &p.pub_key)),
        Packet::ChatMessage(p) => framed(tag, pack_chat(&p.message, p.timestamp, &p.signature)),
    }
}

/// Reads a packet from untrusted bytes. Never fails but by `DecodeError`.
pub fn decode(bytes: &[u8]) -> (r: Result<Packet, DecodeError>)
    ensures
        result_view(r) == decoding(bytes@),
{
    if bytes.len() < 2 {
        return Err(DecodeError::Malformed);
    }
    let tag = bytes[0];
    let payload = vstd::slice::slice_subrange(bytes, 1, bytes.len());
    match PacketType::from_tag(tag) {
        None => Err(DecodeError::UnknownType(tag)),
        Some(PacketType::ReqAnnouncement) => match unpack_version(payload) {
            Some(version) => Ok(Packet::ReqAnnouncement(ReqAnnouncement { version })),
            None => Err(DecodeError::Malformed),
        },
        Some(PacketType::Announcement) => match unpack_announcement(payload) {
            Some((alias, pub_key)) => Ok(Packet::Announcement(Announcement { alias, pub_key })),
            None => Err(DecodeError::Malformed),
        },
        Some(PacketType::ChatMessage) => match unpack_chat(payload) {
            Some((message, timestamp, signature)) => Ok(
                Packet::ChatMessage(ChatMessage { message, signature, timestamp }),
            ),
            None => Err(DecodeError::Malformed),
        },
    }
}

/// Decoding undoes encoding for every packet whose fields read back from
/// their packed form as they were written, given that the packed form is not
/// empty (rmp-serde always writes an array header): the tag byte and the
/// framing lose nothing.
pub proof fn lemma_decode_encode(p: PacketModel)
    requires
        match p {
            PacketModel::ReqAnnouncement { version } => unpacked_version(packed_version(version))
                == Some(version),
            PacketModel::Announcement { alias, pub_key } => unpacked_announcement(
                packed_announcement(alias, pub_key),
            ) == Some((alias, pub_key)),
            PacketModel::ChatMessage { message, timestamp, signature } => unpacked_chat(
                packed_chat(message, timestamp, signature),
            ) == Some((message, timestamp, signature)),
        },
        match p {
            PacketModel::ReqAnnouncement { version } => packed_version(version).len() > 0,
            PacketModel::Announcement { alias, pub_key } => packed_announcement(alias, pub_key).len()
                > 0,
            PacketModel::ChatMessage { message, timestamp, signature } => packed_chat(
                message,
                timestamp,
                signature,
            ).len() > 0,
        },
    ensures
        decoding(encoding(p)) == Ok::<PacketModel, DecodeError>(p),
{
    let b = encoding(p);
    match p {
        PacketModel::ReqAnnouncement { version } => {
            assert(b.subrange(1, b.len() as int) == packed_version(version));
        },
        PacketModel::Announcement { alias, pub_key } => {
            assert(b.subrange(1, b.len() as int) == packed_announcement(alias, pub_key));
        },
        PacketModel::ChatMessage { message, timestamp, signature } => {
            assert(b.subrange(1, b.len() as int) == packed_chat(message, timestamp, signature));
        },
    }
}

/// A byte string of length 0 or 1 is no packet: it reads as malformed.
pub proof fn lemma_short_input_malformed(b: Seq<u8>)
    requires
        b.len() < 2,
    ensures
        decoding(b) == Err::<PacketModel, DecodeError>(DecodeError::Malformed),
{
}

/// With a known tag, a byte string reads as a packet of that kind or as
/// malformed, and as a packet only when its payload reads as the kind's
/// fields.
pub proof fn lemma_known_tag(b: Seq<u8>)
    requires
        b.len() >= 2,
        1 <= b[0] <= 3,
    ensures
        decoding(b) is Err ==> decoding(b) == Err::<PacketModel, DecodeError>(DecodeError::Malformed),
        decoding(b) is Ok <==> ({
            let payload = b.subrange(1, b.len() as int);
            if b[0] == 1 {
                unpacked_version(payload) is Some
            } else if b[0] == 2 {
                unpacked_announcement(payload) is Some
            } else {
                unpacked_chat(payload) is Some
            }
        }),
        decoding(b) matches Ok(p) ==> encoding(p)[0] == b[0],
{
}

} // verus!
