//! The wire frame codec: a packet is carried over the datagram transport as
//! one length byte, the topic bytes, then the payload.

use vstd::prelude::*;

verus! {

/// A decoded message: a topic naming a logical channel and an opaque payload.
pub struct Packet {
    pub topic: Vec<u8>,
    pub payload: Vec<u8>,
}

impl Packet {
    /// A well-formed packet carries a non-empty topic of at most 255 bytes
    /// of valid UTF-8.
    pub open spec fn wf(self) -> bool {
        1 <= self.topic@.len() <= 255 && vstd::utf8::valid_utf8(self.topic@)
    }
}

/// Why a frame could not be produced or read back.
#[derive(Debug, PartialEq, Eq)]
pub enum FrameError {
    /// The topic was empty; a packet always names a topic.
    TopicEmpty,
    /// The topic does not fit the one-byte length prefix.
    TopicTooLong,
    /// The inbound bytes are not a frame: too short, an empty topic,
    /// or topic bytes that are not valid UTF-8.
    MalformedFrame,
}

/// A topic fits a frame when it is non-empty and its length fits one byte.
pub open spec fn encodable(topic: Seq<u8>) -> bool {
    1 <= topic.len() <= 255
}

/// The frame laid out on the wire: `[topic.len()][topic][payload]`.
pub open spec fn frame_bytes(topic: Seq<u8>, payload: Seq<u8>) -> Seq<u8> {
    seq![topic.len() as u8] + topic + payload
}

/// What a byte string decodes to: the topic and payload of the frame it
/// spells, or nothing when it is not a well-formed frame.
pub open spec fn decoded(bytes: Seq<u8>) -> Option<(Seq<u8>, Seq<u8>)> {
    if bytes.len() >= 1 {
        let l = bytes[0] as int;
        if 1 <= l && 1 + l <= bytes.len() && vstd::utf8::valid_utf8(bytes.subrange(1, 1 + l)) {
            Some((bytes.subrange(1, 1 + l), bytes.subrange(1 + l, bytes.len() as int)))
        } else {
            None
        }
    } else {
        None
    }
}

/// Relies on `core::str::from_utf8`, which returns `Ok` exactly when the
/// bytes are valid UTF-8 (vstd's `valid_utf8` is that condition).
#[verifier::external_body]
fn is_valid_utf8(bytes: &Vec<u8>) -> (r: bool)
    ensures
        r == vstd::utf8::valid_utf8(bytes@),
{
    core::str::from_utf8(bytes.as_slice()).is_ok()
}

/// Encode a topic and payload as one wire frame, rejecting topics that do
/// not fit the one-byte length prefix.
pub fn encode(topic: &Vec<u8>, payload: &Vec<u8>) -> (r: Result<Vec<u8>, FrameError>)
    ensures
        match r {
            Ok(frame) => encodable(topic@) && frame@ == frame_bytes(topic@, payload@),
            Err(e) => !encodable(topic@)
                && (e is TopicEmpty <==> topic@.len() == 0)
                && (e is TopicTooLong <==> topic@.len() > 255),
        },
{
    if topic.len() == 0 {
        return Err(FrameError::TopicEmpty);
    }
    if topic.len() > 255 {
        return Err(FrameError::TopicTooLong);
    }
    let mut frame: Vec<u8> = Vec::new();
    frame.push(topic.len() as u8);
    let mut i: usize = 0;
    while i < topic.len()
        invariant
            i <= topic@.len(),
            encodable(topic@),
            frame@ == seq![topic@.len() as u8] + topic@.subrange(0, i as int),
        decreases topic@.len() - i,
    {
        frame.push(topic[i]);
        i = i + 1;
    }
    let mut j: usize = 0;
    while j < payload.len()
        invariant
            j <= payload@.len(),
            encodable(topic@),
            frame@ == seq![topic@.len() as u8] + topic@ + payload@.subrange(0, j as int),
        decreases payload@.len() - j,
    {
        frame.push(payload[j]);
        j = j + 1;
    }
    proof {
        assert(frame@ =~= frame_bytes(topic@, payload@));
    }
    Ok(frame)
}

/// Decode one wire frame. Never panics: every byte string either spells a
/// well-formed packet or is reported as malformed.
pub fn decode(bytes: &Vec<u8>) -> (r: Result<Packet, FrameError>)
    ensures
        match r {
            Ok(p) => decoded(bytes@) == Some((p.topic@, p.payload@)) && p.wf(),
            Err(e) => e is MalformedFrame && decoded(bytes@) is None,
        },
{
    if bytes.len() == 0 {
        return Err(FrameError::MalformedFrame);
    }
    let l = bytes[0] as usize;
    if l == 0 {
        return Err(FrameError::MalformedFrame);
    }
    if bytes.len() < 1 + l {
        return Err(FrameError::MalformedFrame);
    }
    let mut topic: Vec<u8> = Vec::new();
    let mut i: usize = 1;
    while i < 1 + l
        invariant
            1 <= i <= 1 + l,
            l == bytes@[0] as int,
            1 + l <= bytes@.len(),
            topic@ == bytes@.subrange(1, i as int),
        decreases 1 + l - i,
    {
        topic.push(bytes[i]);
        i = i + 1;
    }
    if !is_valid_utf8(&topic) {
        return Err(FrameError::MalformedFrame);
    }
    let mut payload: Vec<u8> = Vec::new();
    let mut j: usize = 1 + l;
    while j < bytes.len()
        invariant
            1 + l <= j <= bytes@.len(),
            l == bytes@[0] as int,
            payload@ == bytes@.subrange(1 + l as int, j as int),
        decreases bytes@.len() - j,
    {
        payload.push(bytes[j]);
        j = j + 1;
    }
    let p = Packet { topic, payload };
    proof {
        assert(decoded(bytes@) == Some((p.topic@, p.payload@)));
    }
    Ok(p)
}

/// Round trip: a frame built from an encodable, valid-UTF-8 topic and any
/// payload decodes back to exactly that topic and payload.
pub proof fn lemma_round_trip(topic: Seq<u8>, payload: Seq<u8>)
    requires
        encodable(topic),
        vstd::utf8::valid_utf8(topic),
    ensures
        decoded(frame_bytes(topic, payload)) == Some((topic, payload)),
{
    let f = frame_bytes(topic, payload);
    assert(f[0] == topic.len() as u8);
    assert(f.subrange(1, 1 + topic.len() as int) =~= topic);
    assert(f.subrange(1 + topic.len() as int, f.len() as int) =~= payload);
}

} // verus!
