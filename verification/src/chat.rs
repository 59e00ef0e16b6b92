//! The frame codec: length-prefixed binary frames over a byte stream.
//!
//! Decoding is resumable: bytes arrive in arbitrary chunks, a frame is never
//! interpreted before all of its bytes are buffered, and a frame that is not
//! yet complete consumes nothing. A compressed message frame expands into the
//! sub-frames packed inside it, each with its own length prefix.

use crate::ext::{inflate, zlib_inflate};
use crate::msg::{is_message_for, message_of_payload, Message};
use crate::wire::{
    be16, be16_bytes, be32, be32_bytes, copy_range, dec_digits, drop_prefix, lemma_be16_roundtrip,
    lemma_be32_roundtrip, push_all, push_be16, push_be32, push_decimal, read_be16, read_be32,
};
use vstd::prelude::*;

verus! {

/// Byte count of the fixed frame header.
pub const HEADER_LENGTH: usize = 16;

/// Client-to-server keep-alive.
pub const OP_HEARTBEAT: u32 = 2;

/// Server reply to a keep-alive; the payload is a popularity count.
pub const OP_HEARTBEAT_REPLY: u32 = 3;

/// A chat-feed message; the payload is JSON, possibly compressed and batched.
pub const OP_MESSAGE: u32 = 5;

/// Client-to-server authentication.
pub const OP_USER_AUTHENTICATION: u32 = 7;

/// Server acknowledgement of a fresh connection.
pub const OP_CONNECT_SUCCESS: u32 = 8;

/// The sequence field every outbound frame carries.
pub const SEQUENCE_ID_DEFAULT: u32 = 1;

/// One decoded inbound event, as handed to the session's packet handler.
#[derive(Debug, PartialEq)]
pub enum ChatPacket {
    ConnectSuccess,
    Popularity(u32),
    Message(Message),
}

/// A fatal framing fault; the stream is not self-synchronizing past it.
#[derive(Clone, Copy, Debug, PartialEq, Eq, Structural)]
pub enum DecodeError {
    /// A frame or sub-frame length field too small for a header, or past the
    /// data it must lie within.
    BadLength,
    /// A message frame whose protocol version this codec does not know.
    UnsupportedVersion(u16),
    /// A compressed payload that is not a whole zlib stream.
    DecompressFailed,
}

/// An outbound frame before encoding: version, opcode and payload.
pub struct RawChatPacket {
    pub proto_ver: u16,
    pub operation: u32,
    pub payload: Vec<u8>,
}

/// The wire bytes of one frame: big-endian total length (header plus
/// payload), header length 16, protocol version, opcode, sequence 1, then the
/// payload verbatim.
pub open spec fn frame_bytes(proto_ver: u16, operation: u32, payload: Seq<u8>) -> Seq<u8>
    recommends
        payload.len() + 16 <= u32::MAX,
{
    be32_bytes((16 + payload.len()) as u32) + be16_bytes(16u16) + be16_bytes(proto_ver)
        + be32_bytes(operation) + be32_bytes(1u32) + payload
}

/// The bytes of the authentication payload:
/// `{"roomid":<id>,"protover":2}` with the id in decimal.
pub open spec fn auth_payload(room_id: u32) -> Seq<u8> {
    auth_prefix() + dec_digits(room_id as nat) + auth_suffix()
}

/// The ASCII bytes of `{"roomid":`.
pub open spec fn auth_prefix() -> Seq<u8> {
    seq![123u8, 34u8, 114u8, 111u8, 111u8, 109u8, 105u8, 100u8, 34u8, 58u8]
}

/// The ASCII bytes of `,"protover":2}`.
pub open spec fn auth_suffix() -> Seq<u8> {
    seq![44u8, 34u8, 112u8, 114u8, 111u8, 116u8, 111u8, 118u8, 101u8, 114u8, 34u8, 58u8, 50u8,
        125u8]
}

impl RawChatPacket {
    /// The authentication frame for a resolved room id.
    pub fn authenticate(room_id: u32) -> (pk: RawChatPacket)
        ensures
            pk.proto_ver == 1,
            pk.operation == OP_USER_AUTHENTICATION,
            pk.payload@ == auth_payload(room_id),
    {
        let mut payload: Vec<u8> = Vec::new();
        payload.push(123u8);
        payload.push(34u8);
        payload.push(114u8);
        payload.push(111u8);
        payload.push(111u8);
        payload.push(109u8);
        payload.push(105u8);
        payload.push(100u8);
        payload.push(34u8);
        payload.push(58u8);
        proof {
            assert(payload@ =~= auth_prefix());
        }
        push_decimal(&mut payload, room_id);
        payload.push(44u8);
        payload.push(34u8);
        payload.push(112u8);
        payload.push(114u8);
        payload.push(111u8);
        payload.push(116u8);
        payload.push(111u8);
        payload.push(118u8);
        payload.push(101u8);
        payload.push(114u8);
        payload.push(34u8);
        payload.push(58u8);
        payload.push(50u8);
        payload.push(125u8);
        proof {
            assert(payload@ =~= auth_payload(room_id));
        }
        RawChatPacket { proto_ver: 1, operation: OP_USER_AUTHENTICATION, payload }
    }

    /// The keep-alive frame: version 1, no payload.
    pub fn heartbeat() -> (pk: RawChatPacket)
        ensures
            pk.proto_ver == 1,
            pk.operation == OP_HEARTBEAT,
            pk.payload@ == Seq::<u8>::empty(),
    {
        RawChatPacket { proto_ver: 1, operation: OP_HEARTBEAT, payload: Vec::new() }
    }

    /// Appends this frame's wire bytes to `dst`.
    pub fn encode(&self, dst: &mut Vec<u8>)
        requires
            self.payload@.len() + 16 <= u32::MAX,
        ensures
            final(dst)@ == old(dst)@ + frame_bytes(self.proto_ver, self.operation, self.payload@),
    {
        let len: u32 = 16 + self.payload.len() as u32;
        push_be32(dst, len);
        push_be16(dst, 16);
        push_be16(dst, self.proto_ver);
        push_be32(dst, self.operation);
        push_be32(dst, SEQUENCE_ID_DEFAULT);
        push_all(dst, self.payload.as_slice());
        proof {
            assert(dst@ =~= old(dst)@ + frame_bytes(
                self.proto_ver,
                self.operation,
                self.payload@,
            ));
        }
    }
}

/// The total length a buffer's first four bytes declare.
pub open spec fn frame_len(b: Seq<u8>) -> int
    recommends
        b.len() >= 4,
{
    be32(b.subrange(0, 4)) as int
}

/// Whether the buffer holds a whole frame: the four length bytes, and as many
/// bytes as they declare.
pub open spec fn frame_ready(b: Seq<u8>) -> bool {
    b.len() >= 4 && frame_len(b) <= b.len()
}

/// The payloads of the sub-frames concatenated in `d`, each read through its
/// own four length bytes with the remaining twelve header bytes skipped;
/// `None` where a declared length is shorter than a header or runs past the
/// data.
pub open spec fn sub_payloads(d: Seq<u8>) -> Option<Seq<Seq<u8>>>
    decreases d.len(),
{
    if d.len() == 0 {
        Some(Seq::empty())
    } else if d.len() < 16 {
        None
    } else {
        let total = be32(d.subrange(0, 4)) as int;
        if total < 16 || total > d.len() {
            None
        } else {
            match sub_payloads(d.skip(total)) {
                Some(rest) => Some(seq![d.subrange(16, total)] + rest),
                None => None,
            }
        }
    }
}

/// Everything one decode step may do, as a relation between the buffer before
/// (`pre`), the buffer after (`post`) and the step's result: an incomplete
/// frame consumes nothing; a whole frame is consumed exactly; an opcode this
/// codec does not know yields no packets; a framing fault leaves the buffer
/// untouched and reports which fault.
pub open spec fn decode_post(
    pre: Seq<u8>,
    post: Seq<u8>,
    r: Result<Option<Vec<ChatPacket>>, DecodeError>,
) -> bool {
    if !frame_ready(pre) {
        r matches Ok(o) && o is None && post == pre
    } else {
        let total = frame_len(pre);
        let rest = pre.skip(total);
        if total < 16 {
            r matches Err(e) && e == DecodeError::BadLength && post == pre
        } else {
            let ver = be16(pre.subrange(6, 8));
            let op = be32(pre.subrange(8, 12));
            let payload = pre.subrange(16, total);
            if op == OP_CONNECT_SUCCESS {
                r matches Ok(Some(out)) && out@ =~= seq![ChatPacket::ConnectSuccess] && post
                    == rest
            } else if op == OP_HEARTBEAT_REPLY {
                if total < 20 {
                    r matches Err(e) && e == DecodeError::BadLength && post == pre
                } else {
                    r matches Ok(Some(out)) && out@ =~= seq![
                        ChatPacket::Popularity(be32(pre.subrange(16, 20))),
                    ] && post == rest
                }
            } else if op == OP_MESSAGE {
                if ver == 0 {
                    r matches Ok(Some(out)) && out@.len() == 1 && (out@[0] matches
                        ChatPacket::Message(m) && is_message_for(m, payload)) && post == rest
                } else if ver == 2 {
                    match zlib_inflate(payload) {
                        Some(d) => match sub_payloads(d) {
                            Some(ps) => r matches Ok(Some(out)) && out@.len() == ps.len() && (
                            forall|k: int|
                                0 <= k < ps.len() ==> ((#[trigger] out@[k]) matches
                                    ChatPacket::Message(m) && is_message_for(m, ps[k]))) && post
                                == rest,
                            None => r matches Err(e) && e == DecodeError::BadLength && post == pre,
                        },
                        None => r matches Err(e) && e == DecodeError::DecompressFailed && post
                            == pre,
                    }
                } else {
                    r matches Err(e) && e == DecodeError::UnsupportedVersion(ver) && post == pre
                }
            } else {
                r matches Ok(Some(out)) && out@.len() == 0 && post == rest
            }
        }
    }
}

/// Decodes the sub-frames concatenated in `d` into message packets, one per
/// sub-frame, in order; fails exactly where a sub-frame length is bad.
#[verifier::loop_isolation(false)]
fn decode_subframes(d: &Vec<u8>) -> (r: Option<Vec<ChatPacket>>)
    ensures
        match r {
            Some(out) => sub_payloads(d@) matches Some(ps) && out@.len() == ps.len() && (forall|
                k: int,
            |
                0 <= k < ps.len() ==> ((#[trigger] out@[k]) matches ChatPacket::Message(m)
                    && is_message_for(m, ps[k]))),
            None => sub_payloads(d@) is None,
        },
{
    let mut out: Vec<ChatPacket> = Vec::new();
    let mut i: usize = 0;
    proof {
        assert(d@.skip(0) =~= d@);
    }
    while i < d.len()
        invariant
            i <= d.len(),
            (sub_payloads(d@) is Some) == (sub_payloads(d@.skip(i as int)) is Some),
            sub_payloads(d@) matches Some(ps) ==> {
                &&& out@.len() <= ps.len()
                &&& sub_payloads(d@.skip(i as int)) == Some(ps.skip(out@.len() as int))
                &&& forall|k: int|
                    0 <= k < out@.len() ==> ((#[trigger] out@[k]) matches ChatPacket::Message(m)
                        && is_message_for(m, ps[k]))
            },
        decreases d.len() - i,
    {
        let ghost rem = d@.skip(i as int);
        if d.len() - i < 16 {
            return None;
        }
        let total32 = read_be32(d, i);
        proof {
            assert(rem.subrange(0, 4) =~= d@.subrange(i as int, i as int + 4));
        }
        let total = total32 as usize;
        if total < 16 || total > d.len() - i {
            return None;
        }
        let payload = copy_range(d, i + 16, i + total);
        proof {
            assert(rem.subrange(16, total as int) =~= d@.subrange(
                i as int + 16,
                i as int + total as int,
            ));
            assert(rem.skip(total as int) =~= d@.skip(i as int + total as int));
        }
        let m = message_of_payload(payload.as_slice());
        out.push(ChatPacket::Message(m));
        proof {
            if sub_payloads(d@) is Some {
                let ps = sub_payloads(d@)->Some_0;
                let n = out@.len() - 1;
                assert(sub_payloads(rem) == Some(ps.skip(n)));
                assert(ps.skip(n)[0] == rem.subrange(16, total as int));
                assert(ps.skip(n).len() >= 1);
                assert(n < ps.len());
                assert(ps.skip(n)[0] == ps[n]);
                assert(ps[n] == payload@);
                assert(ps.skip(n).skip(1) =~= ps.skip(n + 1));
            }
        }
        i = i + total;
    }
    proof {
        assert(d@.skip(i as int) =~= Seq::<u8>::empty());
    }
    Some(out)
}

/// Frame round-trip: the bytes that encoding any valid frame produces decode
/// back to exactly the fields and payload that went in — the declared length,
/// header length 16, version, opcode, sequence 1, and the payload span.
#[verifier::rlimit(100)]
pub proof fn lemma_frame_round_trip(proto_ver: u16, operation: u32, payload: Seq<u8>)
    requires
        payload.len() + 16 <= u32::MAX,
    ensures
        ({
            let b = frame_bytes(proto_ver, operation, payload);
            &&& b.len() == 16 + payload.len()
            &&& frame_ready(b)
            &&& frame_len(b) == b.len()
            &&& be16(b.subrange(4, 6)) == 16
            &&& be16(b.subrange(6, 8)) == proto_ver
            &&& be32(b.subrange(8, 12)) == operation
            &&& be32(b.subrange(12, 16)) == 1
            &&& b.subrange(16, b.len() as int) == payload
        }),
{
    let b = frame_bytes(proto_ver, operation, payload);
    assert(b.subrange(0, 4) =~= be32_bytes((16 + payload.len()) as u32));
    lemma_be32_roundtrip((16 + payload.len()) as u32);
    assert(b.subrange(4, 6) =~= be16_bytes(16u16));
    lemma_be16_roundtrip(16u16);
    assert(b.subrange(6, 8) =~= be16_bytes(proto_ver));
    lemma_be16_roundtrip(proto_ver);
    assert(b.subrange(8, 12) =~= be32_bytes(operation));
    lemma_be32_roundtrip(operation);
    assert(b.subrange(12, 16) =~= be32_bytes(1u32));
    lemma_be32_roundtrip(1u32);
    assert(b.subrange(16, b.len() as int) =~= payload);
}

/// Partial-read resumability: no proper prefix of a frame's bytes is ready,
/// so a decode step on any split of the frame consumes nothing and asks for
/// more (see `decode_post`), and `feed` only ever appends — however the bytes
/// are chunked, the frame decodes once, whole.
pub proof fn lemma_prefix_not_ready(proto_ver: u16, operation: u32, payload: Seq<u8>, k: int)
    requires
        payload.len() + 16 <= u32::MAX,
        0 <= k < 16 + payload.len(),
    ensures
        !frame_ready(frame_bytes(proto_ver, operation, payload).take(k)),
{
    let b = frame_bytes(proto_ver, operation, payload);
    lemma_frame_round_trip(proto_ver, operation, payload);
    let p = b.take(k);
    if k >= 4 {
        assert(p.subrange(0, 4) =~= b.subrange(0, 4));
        assert(frame_len(p) == 16 + payload.len());
    }
}

/// Whether `f` can stand as one sub-frame of a batch: at least a header, and
/// its four length bytes declare exactly its own length.
pub open spec fn wf_sub_frame(f: Seq<u8>) -> bool {
    f.len() >= 16 && be32(f.subrange(0, 4)) == f.len()
}

/// The concatenation of a list of byte strings.
pub open spec fn concat_frames(fs: Seq<Seq<u8>>) -> Seq<u8>
    decreases fs.len(),
{
    if fs.len() == 0 {
        Seq::empty()
    } else {
        fs[0] + concat_frames(fs.skip(1))
    }
}

/// The payload (everything past the 16 header bytes) of each listed frame.
pub open spec fn payloads_of(fs: Seq<Seq<u8>>) -> Seq<Seq<u8>>
    decreases fs.len(),
{
    if fs.len() == 0 {
        Seq::empty()
    } else {
        seq![fs[0].subrange(16, fs[0].len() as int)] + payloads_of(fs.skip(1))
    }
}

/// Batch expansion: a batch built by concatenating any number of well-formed,
/// independently length-prefixed sub-frames splits back into exactly their
/// payloads, in the original order, byte for byte.
pub proof fn lemma_batch_expansion(fs: Seq<Seq<u8>>)
    requires
        forall|i: int| 0 <= i < fs.len() ==> wf_sub_frame(#[trigger] fs[i]),
    ensures
        sub_payloads(concat_frames(fs)) == Some(payloads_of(fs)),
        payloads_of(fs).len() == fs.len(),
    decreases fs.len(),
{
    if fs.len() == 0 {
        assert(sub_payloads(concat_frames(fs)) == Some(payloads_of(fs)));
    } else {
        let f = fs[0];
        let rest = fs.skip(1);
        assert forall|i: int| 0 <= i < rest.len() implies wf_sub_frame(#[trigger] rest[i]) by {
            assert(rest[i] == fs[i + 1]);
        }
        lemma_batch_expansion(rest);
        let c = concat_frames(fs);
        assert(c == f + concat_frames(rest));
        assert(c.subrange(0, 4) =~= f.subrange(0, 4));
        assert(c.skip(f.len() as int) =~= concat_frames(rest));
        assert(c.subrange(16, f.len() as int) =~= f.subrange(16, f.len() as int));
        assert(payloads_of(fs) =~= seq![f.subrange(16, f.len() as int)] + payloads_of(rest));
    }
}

/// The inbound half of the codec: an append-only byte buffer that frames are
/// decoded out of, one whole frame at a time.
pub struct ChatCodec {
    buf: Vec<u8>,
}

impl View for ChatCodec {
    type V = Seq<u8>;

    closed spec fn view(&self) -> Seq<u8> {
        self.buf@
    }
}

impl ChatCodec {
    pub fn new() -> (c: ChatCodec)
        ensures
            c@ == Seq::<u8>::empty(),
    {
        ChatCodec { buf: Vec::new() }
    }

    /// Appends freshly arrived bytes; nothing is interpreted yet.
    pub fn feed(&mut self, data: &[u8])
        ensures
            final(self)@ == old(self)@ + data@,
    {
        push_all(&mut self.buf, data);
    }

    /// One decode step, exactly as `decode_post` relates it to the buffer:
    /// `Ok(None)` asks for more bytes; `Ok(Some(packets))` consumes one whole
    /// frame (the packet list is empty for an opcode this codec does not
    /// know); an error is fatal and consumes nothing.
    pub fn decode(&mut self) -> (r: Result<Option<Vec<ChatPacket>>, DecodeError>)
        ensures
            decode_post(old(self)@, final(self)@, r),
    {
        if self.buf.len() < 4 {
            return Ok(None);
        }
        let total32 = read_be32(&self.buf, 0);
        let total = total32 as usize;
        if self.buf.len() < total {
            // An incomplete frame: make room for the remainder and wait.
            let missing = total - self.buf.len();
            self.buf.reserve(missing);
            return Ok(None);
        }
        if total < 16 {
            return Err(DecodeError::BadLength);
        }
        let ver = read_be16(&self.buf, 6);
        let op = read_be32(&self.buf, 8);
        let mut out: Vec<ChatPacket> = Vec::new();
        if op == OP_CONNECT_SUCCESS {
            out.push(ChatPacket::ConnectSuccess);
        } else if op == OP_HEARTBEAT_REPLY {
            if total < 20 {
                return Err(DecodeError::BadLength);
            }
            let pop = read_be32(&self.buf, 16);
            out.push(ChatPacket::Popularity(pop));
        } else if op == OP_MESSAGE {
            if ver == 0 {
                let payload = copy_range(&self.buf, 16, total);
                let m = message_of_payload(payload.as_slice());
                out.push(ChatPacket::Message(m));
            } else if ver == 2 {
                let comp = copy_range(&self.buf, 16, total);
                let d = match inflate(comp.as_slice()) {
                    Some(d) => d,
                    None => {
                        return Err(DecodeError::DecompressFailed);
                    },
                };
                out = match decode_subframes(&d) {
                    Some(packets) => packets,
                    None => {
                        return Err(DecodeError::BadLength);
                    },
                };
            } else {
                return Err(DecodeError::UnsupportedVersion(ver));
            }
        }
        drop_prefix(&mut self.buf, total);
        Ok(Some(out))
    }
}

} // verus!
