//! Protocol messages as bytes: a tag for the variant, then the variant's
//! fields in order of declaration.

use crate::wire::{
    bytes_field, bytes_parse, lemma_bytes_round_trip, lemma_text_round_trip,
    lemma_varint_round_trip, put_bytes, put_text, put_u32, take_bytes, take_text, take_u32,
    text_field, text_parse, u32_parse, varint, WireError,
};
use crate::{Challenge, ChallengeView, MessageView, P2PMessage, Solution};
use vstd::prelude::*;
use vstd::utf8::encode_utf8;

verus! {

/// The tag of the variant `Challenge`.
pub const TAG_CHALLENGE: u32 = 0;

/// The tag of the variant `Reply`.
pub const TAG_REPLY: u32 = 1;

/// The tag of the variant `YouWin`.
pub const TAG_YOU_WIN: u32 = 2;

/// A message on the wire.
pub open spec fn message_bytes(m: MessageView) -> Seq<u8> {
    match m {
        MessageView::Challenge(c) => varint(TAG_CHALLENGE as nat) + text_field(c.name)
            + bytes_field(c.payload),
        MessageView::Reply(payload) => varint(TAG_REPLY as nat) + bytes_field(payload),
        MessageView::YouWin(reason) => varint(TAG_YOU_WIN as nat) + text_field(reason),
    }
}

/// What reading a message from the start of `b` gives; bytes behind the
/// message are ignored.
pub open spec fn message_parse(b: Seq<u8>) -> Result<MessageView, WireError> {
    match u32_parse(b) {
        Err(e) => Err(e),
        Ok((tag, k)) => {
            let rest = b.skip(k as int);
            if tag == TAG_CHALLENGE {
                match text_parse(rest) {
                    Err(e) => Err(e),
                    Ok((name, n)) => match bytes_parse(rest.skip(n as int)) {
                        Err(e) => Err(e),
                        Ok((payload, _)) => Ok(
                            MessageView::Challenge(ChallengeView { name, payload }),
                        ),
                    },
                }
            } else if tag == TAG_REPLY {
                match bytes_parse(rest) {
                    Err(e) => Err(e),
                    Ok((payload, _)) => Ok(MessageView::Reply(payload)),
                }
            } else if tag == TAG_YOU_WIN {
                match text_parse(rest) {
                    Err(e) => Err(e),
                    Ok((reason, _)) => Ok(MessageView::YouWin(reason)),
                }
            } else {
                Err(WireError::UnknownVariant(tag))
            }
        },
    }
}

/// The message's strings and byte sequences have lengths that a length
/// prefix can hold. Every message in memory is of this kind.
pub open spec fn encodable(m: MessageView) -> bool {
    match m {
        MessageView::Challenge(c) => encode_utf8(c.name).len() <= u64::MAX && c.payload.len()
            <= u64::MAX,
        MessageView::Reply(payload) => payload.len() <= u64::MAX,
        MessageView::YouWin(reason) => encode_utf8(reason).len() <= u64::MAX,
    }
}

/// Decoding undoes encoding: every message, written and read back, is the
/// message it was.
pub proof fn lemma_message_round_trip(m: MessageView)
    requires
        encodable(m),
    ensures
        message_parse(message_bytes(m)) == Ok::<MessageView, WireError>(m),
{
    let all = message_bytes(m);
    let none = Seq::<u8>::empty();
    match m {
        MessageView::Challenge(c) => {
            let tag = varint(TAG_CHALLENGE as nat);
            let f1 = text_field(c.name);
            let f2 = bytes_field(c.payload);
            lemma_varint_round_trip(TAG_CHALLENGE as nat, f1 + f2, false);
            assert(all =~= tag + (f1 + f2));
            assert(all.skip(tag.len() as int) =~= f1 + f2);
            lemma_text_round_trip(c.name, f2);
            assert((f1 + f2).skip(f1.len() as int) =~= f2 + none);
            lemma_bytes_round_trip(c.payload, none);
        },
        MessageView::Reply(payload) => {
            let tag = varint(TAG_REPLY as nat);
            let f1 = bytes_field(payload);
            lemma_varint_round_trip(TAG_REPLY as nat, f1, false);
            assert(all.skip(tag.len() as int) =~= f1 + none);
            lemma_bytes_round_trip(payload, none);
        },
        MessageView::YouWin(reason) => {
            let tag = varint(TAG_YOU_WIN as nat);
            let f1 = text_field(reason);
            lemma_varint_round_trip(TAG_YOU_WIN as nat, f1, false);
            assert(all.skip(tag.len() as int) =~= f1 + none);
            lemma_text_round_trip(reason, none);
        },
    }
}

impl P2PMessage {
    /// Writes the message as bytes.
    pub fn encode(&self) -> (r: Vec<u8>)
        ensures
            r@ == message_bytes(self@),
            encodable(self@),
            message_parse(r@) == Ok::<MessageView, WireError>(self@),
    {
        let mut out: Vec<u8> = Vec::new();
        match self {
            P2PMessage::Challenge(c) => {
                put_u32(&mut out, TAG_CHALLENGE);
                put_text(&mut out, c.name.as_str());
                let _size: usize = c.payload.len();
                put_bytes(&mut out, c.payload.as_slice());
            },
            P2PMessage::Reply(s) => {
                put_u32(&mut out, TAG_REPLY);
                let _size: usize = s.payload.len();
                put_bytes(&mut out, s.payload.as_slice());
            },
            P2PMessage::YouWin(reason) => {
                put_u32(&mut out, TAG_YOU_WIN);
                put_text(&mut out, reason.as_str());
            },
        }
        proof {
            assert(out@ =~= message_bytes(self@));
            lemma_message_round_trip(self@);
        }
        out
    }

    /// Reads a message from the start of `bytes`.
    pub fn decode(bytes: &[u8]) -> (r: Result<P2PMessage, WireError>)
        ensures
            match message_parse(bytes@) {
                Ok(m) => r is Ok && r->Ok_0@ == m,
                Err(e) => r == Err::<P2PMessage, WireError>(e),
            },
    {
        assert(bytes@.skip(0) =~= bytes@);
        let (tag, at) = match take_u32(bytes, 0) {
            Ok(p) => p,
            Err(e) => { return Err(e); },
        };
        let ghost rest = bytes@.skip(at as int);
        if tag == TAG_CHALLENGE {
            let (name, at2) = match take_text(bytes, at) {
                Ok(p) => p,
                Err(e) => { return Err(e); },
            };
            assert(rest.skip(at2 - at) =~= bytes@.skip(at2 as int));
            let (payload, _) = match take_bytes(bytes, at2) {
                Ok(p) => p,
                Err(e) => { return Err(e); },
            };
            Ok(P2PMessage::Challenge(Challenge { name, payload }))
        } else if tag == TAG_REPLY {
            match take_bytes(bytes, at) {
                Ok((payload, _)) => Ok(P2PMessage::Reply(Solution { payload })),
                Err(e) => Err(e),
            }
        } else if tag == TAG_YOU_WIN {
            match take_text(bytes, at) {
                Ok((reason, _)) => Ok(P2PMessage::YouWin(reason)),
                Err(e) => Err(e),
            }
        } else {
            Err(WireError::UnknownVariant(tag))
        }
    }
}

} // verus!
