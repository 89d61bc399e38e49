//! Frames: one message per frame, its length in front as four bytes, most
//! significant first.

use crate::message::{encodable, lemma_message_round_trip, message_bytes, message_parse};
use crate::wire::WireError;
use crate::{MessageView, P2PMessage};
use vstd::prelude::*;
use vstd::slice::slice_subrange;

verus! {

/// The number of bytes of a frame's length header.
pub const HEADER_LEN: usize = 4;

/// Why bytes could not be framed or unframed.
#[derive(Debug, Clone, Copy, PartialEq, Eq, Structural)]
pub enum FrameError {
    /// The bytes end before the header or before the announced payload does.
    Truncated,
    /// The payload is not a message.
    Malformed(WireError),
    /// The message is longer than a header can announce.
    Oversized,
}

/// A length as a frame header.
pub open spec fn header_bytes(len: u32) -> Seq<u8> {
    seq![
        (len / 0x100_0000) as u8,
        (len / 0x1_0000 % 0x100) as u8,
        (len / 0x100 % 0x100) as u8,
        (len % 0x100) as u8,
    ]
}

/// The length that the first four bytes of `b` announce.
pub open spec fn header_value(b: Seq<u8>) -> nat {
    (b[0] as nat) * 0x100_0000 + (b[1] as nat) * 0x1_0000 + (b[2] as nat) * 0x100 + (b[3] as nat)
}

/// A message as a frame.
pub open spec fn frame_bytes(m: MessageView) -> Seq<u8> {
    header_bytes(message_bytes(m).len() as u32) + message_bytes(m)
}

/// What reading one frame from the start of `b` gives: the message and the
/// size of the frame. Bytes behind the frame belong to the next one.
pub open spec fn frame_parse(b: Seq<u8>) -> Result<(MessageView, nat), FrameError> {
    if b.len() < HEADER_LEN {
        Err(FrameError::Truncated)
    } else {
        let n = header_value(b);
        if b.len() - HEADER_LEN < n {
            Err(FrameError::Truncated)
        } else {
            match message_parse(b.subrange(HEADER_LEN as int, HEADER_LEN + n)) {
                Ok(m) => Ok((m, (HEADER_LEN + n) as nat)),
                Err(e) => Err(FrameError::Malformed(e)),
            }
        }
    }
}

/// A header announces the length it was made from.
pub proof fn lemma_header_round_trip(len: u32, rest: Seq<u8>)
    ensures
        header_bytes(len).len() == HEADER_LEN,
        header_value(header_bytes(len) + rest) == len,
{
}

/// A framed message, whatever follows it, is read back as that message, and
/// the frame ends where the message ends.
pub proof fn lemma_frame_round_trip(m: MessageView, rest: Seq<u8>)
    requires
        encodable(m),
        message_bytes(m).len() <= u32::MAX,
    ensures
        frame_parse(frame_bytes(m) + rest) == Ok::<(MessageView, nat), FrameError>(
            (m, frame_bytes(m).len()),
        ),
{
    let body = message_bytes(m);
    let all = frame_bytes(m) + rest;
    lemma_header_round_trip(body.len() as u32, body + rest);
    assert(all =~= header_bytes(body.len() as u32) + (body + rest));
    assert(all.subrange(HEADER_LEN as int, HEADER_LEN + body.len()) =~= body);
    lemma_message_round_trip(m);
}

/// A frame cut short anywhere is reported as truncated: the header may be
/// incomplete, or fewer bytes follow it than it announces.
pub proof fn lemma_short_frame_is_truncated(b: Seq<u8>)
    requires
        b.len() < HEADER_LEN || b.len() - HEADER_LEN < header_value(b),
    ensures
        frame_parse(b) == Err::<(MessageView, nat), FrameError>(FrameError::Truncated),
{
}

/// Writes a length as a frame header.
pub fn frame_header(len: u32) -> (r: [u8; 4])
    ensures
        r@ == header_bytes(len),
{
    let r = [
        (len / 0x100_0000) as u8,
        (len / 0x1_0000 % 0x100) as u8,
        (len / 0x100 % 0x100) as u8,
        (len % 0x100) as u8,
    ];
    assert(r@ =~= header_bytes(len));
    r
}

/// Reads the payload length that a frame header announces.
pub fn payload_length(header: &[u8; 4]) -> (r: u32)
    ensures
        r == header_value(header@),
{
    (header[0] as u32) * 0x100_0000 + (header[1] as u32) * 0x1_0000 + (header[2] as u32) * 0x100
        + (header[3] as u32)
}

/// Frames a message: the length of its encoding, then the encoding. Fails
/// with `Oversized`, and only then, when the encoding is longer than four
/// bytes can announce.
pub fn write_frame(message: &P2PMessage) -> (r: Result<Vec<u8>, FrameError>)
    ensures
        match r {
            Ok(frame) => message_bytes(message@).len() <= u32::MAX && frame@ == frame_bytes(
                message@,
            ) && frame_parse(frame@) == Ok::<(MessageView, nat), FrameError>(
                (message@, frame@.len()),
            ),
            Err(e) => message_bytes(message@).len() > u32::MAX && e == FrameError::Oversized,
        },
{
    let mut body = message.encode();
    if body.len() > u32::MAX as usize {
        return Err(FrameError::Oversized);
    }
    let header = frame_header(body.len() as u32);
    let mut frame: Vec<u8> = Vec::new();
    frame.push(header[0]);
    frame.push(header[1]);
    frame.push(header[2]);
    frame.push(header[3]);
    frame.append(&mut body);
    proof {
        assert(frame@ =~= frame_bytes(message@));
        assert(frame@ =~= frame_bytes(message@) + Seq::<u8>::empty());
        lemma_frame_round_trip(message@, Seq::empty());
    }
    Ok(frame)
}

/// Reads one frame from the start of `bytes`: the message it carries and the
/// number of bytes the frame occupies. Fails with `Truncated` when the
/// header is incomplete or announces more bytes than follow it, with
/// `Malformed` when the payload is not a message.
pub fn read_frame(bytes: &[u8]) -> (r: Result<(P2PMessage, usize), FrameError>)
    ensures
        match frame_parse(bytes@) {
            Ok((m, n)) => r is Ok && r->Ok_0.0@ == m && r->Ok_0.1 == n,
            Err(e) => r == Err::<(P2PMessage, usize), FrameError>(e),
        },
{
    if bytes.len() < HEADER_LEN {
        return Err(FrameError::Truncated);
    }
    let header = [bytes[0], bytes[1], bytes[2], bytes[3]];
    let announced = payload_length(&header);
    if ((bytes.len() - HEADER_LEN) as u64) < announced as u64 {
        return Err(FrameError::Truncated);
    }
    let end = HEADER_LEN + announced as usize;
    match P2PMessage::decode(slice_subrange(bytes, HEADER_LEN, end)) {
        Ok(message) => Ok((message, end)),
        Err(e) => Err(FrameError::Malformed(e)),
    }
}

} // verus!
