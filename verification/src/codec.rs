//! The control-pipe wire format: a frame is the sync byte `'T'`, a 3-byte
//! big-endian length, and then that many bytes: the control number, the
//! command code and the payload.

use bytes::{Buf, BufMut, BytesMut};
use vstd::prelude::*;

use crate::control_pipe::{ControlCmd, ControlMsg, ControlMsgView};

verus! {

/// The first byte of every frame.
pub const SYNC: u8 = 0x54;

/// The bytes of a frame before the declared length starts to count.
pub const HEADER_LEN: usize = 4;

/// The smallest length a frame may declare: the control number and the
/// command code.
pub const MIN_LENGTH: usize = 2;

/// The largest length a frame can declare in three bytes.
pub const MAX_LENGTH: usize = 0xff_ffff;

/// `bytes::BytesMut`, a growable byte buffer, as an opaque type: what it
/// holds is spoken of through `buf_bytes`.
#[verifier::external_type_specification]
#[verifier::external_body]
pub struct ExBytesMut(BytesMut);

/// The bytes that a `BytesMut` holds, front first.
pub uninterp spec fn buf_bytes(buf: BytesMut) -> Seq<u8>;

/// The number that a run of bytes spells, most significant byte first.
pub open spec fn be_value(bytes: Seq<u8>) -> nat
    decreases bytes.len(),
{
    if bytes.len() == 0 {
        0
    } else {
        be_value(bytes.drop_last()) * 256 + bytes.last() as nat
    }
}

/// The lowest `width` bytes of a number, most significant byte first.
pub open spec fn be_bytes(n: nat, width: nat) -> Seq<u8>
    decreases width,
{
    if width == 0 {
        Seq::empty()
    } else {
        be_bytes(n / 256, (width - 1) as nat).push((n % 256) as u8)
    }
}

/// `BytesMut::len`: the number of bytes the buffer holds.
#[verifier::external_body]
fn buf_len(buf: &BytesMut) -> (n: usize)
    ensures
        n == buf_bytes(*buf).len(),
{
    buf.len()
}

/// `Buf::chunk` of a `BytesMut`: all the bytes the buffer holds, as a slice.
#[verifier::external_body]
fn buf_chunk(buf: &BytesMut) -> (s: &[u8])
    ensures
        s@ == buf_bytes(*buf),
{
    buf.chunk()
}

/// `BytesMut::split_to`: takes the first `at` bytes out of the buffer and
/// returns them; the buffer keeps the rest. The outside function panics when
/// `at` is beyond the end.
#[verifier::external_body]
fn buf_split_to(buf: &mut BytesMut, at: usize) -> (front: BytesMut)
    requires
        at <= buf_bytes(*old(buf)).len(),
    ensures
        buf_bytes(front) == buf_bytes(*old(buf)).take(at as int),
        buf_bytes(*final(buf)) == buf_bytes(*old(buf)).skip(at as int),
{
    buf.split_to(at)
}

/// `Buf::advance` of a byte slice: drops the first `cnt` bytes. The outside
/// function panics when fewer are left.
#[verifier::external_body]
fn cursor_advance(src: &mut &[u8], cnt: usize)
    requires
        cnt <= old(src)@.len(),
    ensures
        final(src)@ == old(src)@.skip(cnt as int),
{
    src.advance(cnt)
}

/// `Buf::get_u8` of a byte slice: returns the first byte and drops it. The
/// outside function panics on an empty slice.
#[verifier::external_body]
fn cursor_get_u8(src: &mut &[u8]) -> (b: u8)
    requires
        old(src)@.len() >= 1,
    ensures
        b == old(src)@[0],
        final(src)@ == old(src)@.skip(1),
{
    src.get_u8()
}

/// `Buf::get_uint` of a byte slice: reads the first `nbytes` bytes as one
/// big-endian number and drops them. The outside function panics when
/// `nbytes` is over 8 or fewer bytes are left.
#[verifier::external_body]
fn cursor_get_uint(src: &mut &[u8], nbytes: usize) -> (n: u64)
    requires
        nbytes <= 8,
        nbytes <= old(src)@.len(),
    ensures
        n == be_value(old(src)@.take(nbytes as int)),
        final(src)@ == old(src)@.skip(nbytes as int),
{
    src.get_uint(nbytes)
}

/// `BytesMut::reserve`: makes room for more bytes; what the buffer holds
/// stays as it is. The outside function panics when the room asked for is
/// beyond what can be allocated.
#[verifier::external_body]
fn buf_reserve(buf: &mut BytesMut, additional: usize)
    requires
        buf_bytes(*old(buf)).len() + additional <= isize::MAX,
    ensures
        buf_bytes(*final(buf)) == buf_bytes(*old(buf)),
{
    buf.reserve(additional)
}

/// `BufMut::put_u8` of a `BytesMut`: appends one byte.
#[verifier::external_body]
fn buf_put_u8(buf: &mut BytesMut, b: u8)
    requires
        buf_bytes(*old(buf)).len() + 1 <= isize::MAX,
    ensures
        buf_bytes(*final(buf)) == buf_bytes(*old(buf)).push(b),
{
    buf.put_u8(b)
}

/// `BufMut::put_uint` of a `BytesMut`: appends the lowest `nbytes` bytes of
/// `n`, most significant first. The outside function panics when `nbytes` is
/// over 8.
#[verifier::external_body]
fn buf_put_uint(buf: &mut BytesMut, n: u64, nbytes: usize)
    requires
        nbytes <= 8,
        buf_bytes(*old(buf)).len() + nbytes <= isize::MAX,
    ensures
        buf_bytes(*final(buf)) == buf_bytes(*old(buf)) + be_bytes(n as nat, nbytes as nat),
{
    buf.put_uint(n, nbytes)
}

/// `BufMut::put` of a `BytesMut`, given a byte slice: appends the bytes of
/// the slice.
#[verifier::external_body]
fn buf_put(buf: &mut BytesMut, src: &[u8])
    requires
        buf_bytes(*old(buf)).len() + src@.len() <= isize::MAX,
    ensures
        buf_bytes(*final(buf)) == buf_bytes(*old(buf)) + src@,
{
    buf.put(src)
}

/// Why a frame is refused.
#[derive(Debug, Clone, Copy, PartialEq, Eq, Structural)]
pub enum FramingError {
    /// The first byte is not the sync byte.
    BadSync,
    /// The declared length leaves no room for the control number and the
    /// command code.
    LengthTooSmall,
    /// The payload is too long for the length to fit in three bytes.
    PayloadTooLarge,
    /// The buffer holds so much that the frame cannot be added to it.
    BufferFull,
}

impl FramingError {
    /// The text of the error.
    pub open spec fn spec_message(self) -> Seq<char> {
        match self {
            FramingError::BadSync => "Sync Pipe Indication != 'T'"@,
            FramingError::LengthTooSmall => "Message Length < 2"@,
            FramingError::PayloadTooLarge => "Message Length > 16777215"@,
            FramingError::BufferFull => "Buffer full"@,
        }
    }

    /// The text of the error.
    pub fn message(&self) -> (text: &'static str)
        ensures
            text@ == self.spec_message(),
    {
        match self {
            FramingError::BadSync => "Sync Pipe Indication != 'T'",
            FramingError::LengthTooSmall => "Message Length < 2",
            FramingError::PayloadTooLarge => "Message Length > 16777215",
            FramingError::BufferFull => "Buffer full",
        }
    }
}

/// What the front of a byte stream amounts to.
pub enum Framing {
    /// No complete frame yet: more bytes are needed.
    NeedMore,
    /// The stream does not start with the sync byte.
    BadSync,
    /// The declared length is below the minimum.
    LengthTooSmall,
    /// A complete frame: the message it carries and the number of bytes it takes.
    Frame { msg: ControlMsgView, consumed: nat },
}

/// The length that the header of a stream of at least four bytes declares.
pub open spec fn declared_length(bytes: Seq<u8>) -> nat {
    be_value(bytes.subrange(1, 4))
}

/// The meaning of the front of a byte stream.
pub open spec fn parse_frame(bytes: Seq<u8>) -> Framing {
    if bytes.len() < HEADER_LEN {
        Framing::NeedMore
    } else if bytes[0] != SYNC {
        Framing::BadSync
    } else if declared_length(bytes) < MIN_LENGTH {
        Framing::LengthTooSmall
    } else if bytes.len() < HEADER_LEN + declared_length(bytes) {
        Framing::NeedMore
    } else {
        Framing::Frame {
            msg: ControlMsgView {
                ctrl_num: bytes[4],
                command: ControlCmd::spec_from_code(bytes[5]),
                data: bytes.subrange(6, HEADER_LEN + declared_length(bytes)),
            },
            consumed: (HEADER_LEN + declared_length(bytes)) as nat,
        }
    }
}

/// Whether a message fits in one frame.
pub open spec fn fits_frame(msg: ControlMsgView) -> bool {
    MIN_LENGTH + msg.data.len() <= MAX_LENGTH
}

/// Whether a message can be added to a buffer that holds a number of
/// bytes: the message has to fit in one frame, and the buffer with the
/// frame may not grow beyond what a buffer can hold.
pub open spec fn spec_encode_result(held: nat, msg: ControlMsgView) -> Result<(), FramingError> {
    if !fits_frame(msg) {
        Err(FramingError::PayloadTooLarge)
    } else if held + 6 + msg.data.len() > isize::MAX {
        Err(FramingError::BufferFull)
    } else {
        Ok(())
    }
}

/// The frame of a message.
pub open spec fn frame_of(msg: ControlMsgView) -> Seq<u8> {
    seq![SYNC] + be_bytes((MIN_LENGTH + msg.data.len()) as nat, 3) + seq![
        msg.ctrl_num,
        msg.command.spec_code(),
    ] + msg.data
}

/// Three bytes spell a number below 2^24, which is their weighted sum.
pub proof fn lemma_be_value_3(bytes: Seq<u8>)
    requires
        bytes.len() == 3,
    ensures
        be_value(bytes) == bytes[0] * 65536 + bytes[1] * 256 + bytes[2],
        be_value(bytes) <= MAX_LENGTH,
{
    let b2 = bytes.drop_last();
    let b1 = b2.drop_last();
    let b0 = b1.drop_last();
    assert(b0.len() == 0);
    assert(be_value(b0) == 0);
    assert(be_value(b1) == be_value(b0) * 256 + b1.last());
    assert(be_value(b2) == be_value(b1) * 256 + b2.last());
    assert(be_value(bytes) == be_value(b2) * 256 + bytes.last());
    assert(b1.last() == bytes[0]);
    assert(b2.last() == bytes[1]);
}

/// The three low bytes of a number, written out.
pub proof fn lemma_be_bytes_3(n: nat)
    ensures
        be_bytes(n, 3) == seq![
            ((n / 65536) % 256) as u8,
            ((n / 256) % 256) as u8,
            (n % 256) as u8,
        ],
{
    let n1 = n / 256;
    let n2 = n1 / 256;
    assert(n2 == n / 65536) by (nonlinear_arith)
        requires
            n1 == n / 256,
            n2 == n1 / 256,
    ;
    assert(be_bytes(n2 / 256, 0) == Seq::<u8>::empty());
    assert(be_bytes(n2, 1) == be_bytes(n2 / 256, 0).push((n2 % 256) as u8));
    assert(be_bytes(n1, 2) == be_bytes(n2, 1).push((n1 % 256) as u8));
    assert(be_bytes(n, 3) == be_bytes(n1, 2).push((n % 256) as u8));
}

/// Reading back the three bytes written for a number below 2^24 gives the
/// number.
pub proof fn lemma_uint24_round_trip(n: nat)
    requires
        n <= MAX_LENGTH,
    ensures
        be_bytes(n, 3).len() == 3,
        be_value(be_bytes(n, 3)) == n,
{
    lemma_be_bytes_3(n);
    lemma_be_value_3(be_bytes(n, 3));
    let a = (n / 65536) % 256;
    let b = (n / 256) % 256;
    let c = n % 256;
    assert(a * 65536 + b * 256 + c == n) by (nonlinear_arith)
        requires
            n <= 0xff_ffff,
            a == (n / 65536) % 256,
            b == (n / 256) % 256,
            c == n % 256,
    ;
}

/// Round trip: the frame of a canonical message that fits, whatever bytes
/// follow it, parses as that message and takes exactly the frame's bytes.
pub proof fn lemma_parse_frame_of(msg: ControlMsgView, rest: Seq<u8>)
    requires
        fits_frame(msg),
        msg.command.is_canonical(),
    ensures
        frame_of(msg).len() == 6 + msg.data.len(),
        parse_frame(frame_of(msg) + rest) == (Framing::Frame {
            msg,
            consumed: frame_of(msg).len(),
        }),
{
    let n = MIN_LENGTH as nat + msg.data.len();
    lemma_uint24_round_trip(n);
    let frame = frame_of(msg);
    let bytes = frame + rest;
    assert(frame.len() == 6 + msg.data.len());
    assert(bytes.subrange(1, 4) =~= be_bytes(n, 3));
    assert(bytes[0] == SYNC);
    assert(bytes[4] == msg.ctrl_num);
    assert(bytes[5] == msg.command.spec_code());
    assert(bytes.subrange(6, 4 + n as int) =~= msg.data);
}

/// A frame that has not arrived in full asks for more bytes: every proper
/// prefix of the frame of a message that fits parses as `NeedMore`.
pub proof fn lemma_prefix_needs_more(msg: ControlMsgView, k: int)
    requires
        fits_frame(msg),
        0 <= k < frame_of(msg).len(),
    ensures
        parse_frame(frame_of(msg).take(k)) == Framing::NeedMore,
{
    let n = MIN_LENGTH as nat + msg.data.len();
    lemma_uint24_round_trip(n);
    let frame = frame_of(msg);
    let prefix = frame.take(k);
    assert(frame.len() == 6 + msg.data.len());
    if k >= 4 {
        assert(prefix.subrange(1, 4) =~= be_bytes(n, 3));
        assert(prefix[0] == SYNC);
    }
}

/// Bytes that arrive one at a time give exactly one message, once the last
/// byte is there: of the frame of a canonical message that fits, every
/// proper prefix asks for more bytes, and the whole frame parses as the
/// message and is used up.
pub proof fn lemma_incremental_feed(msg: ControlMsgView, k: int)
    requires
        fits_frame(msg),
        msg.command.is_canonical(),
        0 <= k <= frame_of(msg).len(),
    ensures
        k < frame_of(msg).len() ==> parse_frame(frame_of(msg).take(k)) == Framing::NeedMore,
        k == frame_of(msg).len() ==> parse_frame(frame_of(msg).take(k)) == (Framing::Frame {
            msg,
            consumed: frame_of(msg).len(),
        }),
{
    if k < frame_of(msg).len() {
        lemma_prefix_needs_more(msg, k);
    } else {
        lemma_parse_frame_of(msg, Seq::empty());
        assert(frame_of(msg).take(k) =~= frame_of(msg) + Seq::<u8>::empty());
    }
}

/// A stream of fewer than four bytes, or with a good header and fewer bytes
/// behind it than the header declares, asks for more bytes.
pub proof fn lemma_short_needs_more(bytes: Seq<u8>)
    requires
        bytes.len() < HEADER_LEN || (bytes[0] == SYNC && declared_length(bytes) >= MIN_LENGTH
            && bytes.len() < HEADER_LEN + declared_length(bytes)),
    ensures
        parse_frame(bytes) == Framing::NeedMore,
{
}

/// A stream of at least four bytes whose first byte is not the sync byte is
/// refused, whatever the other bytes are.
pub proof fn lemma_bad_sync(bytes: Seq<u8>)
    requires
        bytes.len() >= HEADER_LEN,
        bytes[0] != SYNC,
    ensures
        parse_frame(bytes) == Framing::BadSync,
{
}

/// A stream with the sync byte and a declared length below two is refused,
/// whatever follows the header.
pub proof fn lemma_length_too_small(bytes: Seq<u8>)
    requires
        bytes.len() >= HEADER_LEN,
        bytes[0] == SYNC,
        declared_length(bytes) < MIN_LENGTH,
    ensures
        parse_frame(bytes) == Framing::LengthTooSmall,
{
}

/// The codec of control messages.
#[derive(Debug, Clone, Copy, Default)]
pub struct ControlMsgCodec;

impl ControlMsgCodec {
    /// Takes one frame off the front of the buffer, if a complete one is
    /// there. Nothing is consumed until then; a refused header leaves the
    /// buffer as it is.
    pub fn decode(&mut self, buf: &mut BytesMut) -> (res: Result<Option<ControlMsg>, FramingError>)
        ensures
            match parse_frame(buf_bytes(*old(buf))) {
                Framing::NeedMore => res == Ok::<Option<ControlMsg>, FramingError>(None)
                    && buf_bytes(*final(buf)) == buf_bytes(*old(buf)),
                Framing::BadSync => res == Err::<Option<ControlMsg>, FramingError>(
                    FramingError::BadSync,
                ) && buf_bytes(*final(buf)) == buf_bytes(*old(buf)),
                Framing::LengthTooSmall => res == Err::<Option<ControlMsg>, FramingError>(
                    FramingError::LengthTooSmall,
                ) && buf_bytes(*final(buf)) == buf_bytes(*old(buf)),
                Framing::Frame { msg, consumed } => res matches Ok(Some(m)) && m@ == msg
                    && buf_bytes(*final(buf)) == buf_bytes(*old(buf)).skip(consumed as int),
            },
    {
        let ghost bytes = buf_bytes(*buf);
        let n = buf_len(buf);
        if n < HEADER_LEN {
            return Ok(None);
        }
        let mut hdr: &[u8] = vstd::slice::slice_subrange(buf_chunk(buf), 0, HEADER_LEN);
        let sync = cursor_get_u8(&mut hdr);
        if sync != SYNC {
            return Err(FramingError::BadSync);
        }
        proof {
            assert(hdr@.take(3) =~= bytes.subrange(1, 4));
            lemma_be_value_3(bytes.subrange(1, 4));
        }
        let msg_len = cursor_get_uint(&mut hdr, 3) as usize;
        if msg_len < MIN_LENGTH {
            return Err(FramingError::LengthTooSmall);
        }
        if n < HEADER_LEN + msg_len {
            return Ok(None);
        }
        let pdu = buf_split_to(buf, HEADER_LEN + msg_len);
        let mut body: &[u8] = buf_chunk(&pdu);
        cursor_advance(&mut body, HEADER_LEN);
        let cnum = cursor_get_u8(&mut body);
        let cmd = cursor_get_u8(&mut body);
        proof {
            assert(body@ =~= bytes.subrange(6, 4 + msg_len));
        }
        Ok(Some(ControlMsg::new(cnum, ControlCmd::from(cmd), body)))
    }

    /// Appends the frame of a message to the buffer. A message whose payload
    /// is too long for one frame is refused, and so is any message when the
    /// buffer holds so much that the frame cannot be added; the buffer then
    /// stays as it is.
    pub fn encode(&mut self, msg: ControlMsg, buf: &mut BytesMut) -> (res: Result<(), FramingError>)
        ensures
            res == spec_encode_result(buf_bytes(*old(buf)).len(), msg@),
            res is Ok ==> buf_bytes(*final(buf)) == buf_bytes(*old(buf)) + frame_of(msg@),
            res is Err ==> buf_bytes(*final(buf)) == buf_bytes(*old(buf)),
    {
        let len = msg.get_data().len();
        if len > MAX_LENGTH - MIN_LENGTH {
            return Err(FramingError::PayloadTooLarge);
        }
        if buf_len(buf) > isize::MAX as usize - (6 + len) {
            return Err(FramingError::BufferFull);
        }
        proof {
            lemma_uint24_round_trip((MIN_LENGTH + len) as nat);
        }
        buf_reserve(buf, 6 + len);
        buf_put_u8(buf, SYNC);
        buf_put_uint(buf, (MIN_LENGTH + len) as u64, 3);
        buf_put_u8(buf, msg.get_ctrl_num());
        buf_put_u8(buf, u8::from(msg.get_command()));
        buf_put(buf, msg.get_data());
        proof {
            assert(buf_bytes(*buf) =~= buf_bytes(*old(buf)) + frame_of(msg@));
        }
        Ok(())
    }
}

} // verus!
