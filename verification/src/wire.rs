//! The binary encoding of the values that make up payloads and messages.
//!
//! Integers are variable-length and little-endian; strings and byte sequences
//! carry their length in front. The bytes themselves are written and read by
//! `bincode` in its standard configuration; this module states what those
//! bytes are and guards the calls that could otherwise overrun their input.

use vstd::bytes::*;
use vstd::pervasive::unreached;
use vstd::prelude::*;
use vstd::slice::slice_subrange;
use vstd::utf8::*;

verus! {

/// Why a sequence of bytes could not be read as the expected value.
#[derive(Debug, Clone, Copy, PartialEq, Eq, Structural)]
pub enum WireError {
    /// No integer starts here: the bytes end too early or begin with an
    /// unknown marker.
    BadInteger,
    /// A length prefix announces more bytes than are left.
    LengthOverrun,
    /// The bytes of a string are not valid UTF-8.
    BadText,
    /// A message tag that names no variant.
    UnknownVariant(u32),
}

impl WireError {
    /// The short description of the error.
    pub open spec fn reason_text(self) -> Seq<char> {
        match self {
            WireError::BadInteger => "no se pudo leer un entero"@,
            WireError::LengthOverrun => "un prefijo de longitud excede los bytes restantes"@,
            WireError::BadText => "una cadena no es UTF-8 válido"@,
            WireError::UnknownVariant(_) => "la etiqueta del mensaje no nombra ninguna variante"@,
        }
    }

    /// A short description of the error.
    pub fn reason(&self) -> (r: &'static str)
        ensures
            r@ == self.reason_text(),
    {
        match self {
            WireError::BadInteger => "no se pudo leer un entero",
            WireError::LengthOverrun => "un prefijo de longitud excede los bytes restantes",
            WireError::BadText => "una cadena no es UTF-8 válido",
            WireError::UnknownVariant(_) => "la etiqueta del mensaje no nombra ninguna variante",
        }
    }
}

/// The variable-length encoding of an unsigned integer below 2^64.
pub open spec fn varint(v: nat) -> Seq<u8> {
    if v <= 250 {
        seq![v as u8]
    } else if v <= 0xffff {
        seq![251u8] + spec_u16_to_le_bytes(v as u16)
    } else if v <= 0xffff_ffff {
        seq![252u8] + spec_u32_to_le_bytes(v as u32)
    } else {
        seq![253u8] + spec_u64_to_le_bytes(v as u64)
    }
}

/// The integer that starts `b` and the number of bytes it occupies. A reader
/// of 32-bit integers (`wide == false`) refuses the 64-bit marker. Encodings
/// longer than necessary are read like any other.
pub open spec fn varint_parse(b: Seq<u8>, wide: bool) -> Option<(nat, nat)> {
    if b.len() == 0 {
        None
    } else if b[0] <= 250 {
        Some((b[0] as nat, 1))
    } else if b[0] == 251 {
        if b.len() >= 3 {
            Some((spec_u16_from_le_bytes(b.subrange(1, 3)) as nat, 3))
        } else {
            None
        }
    } else if b[0] == 252 {
        if b.len() >= 5 {
            Some((spec_u32_from_le_bytes(b.subrange(1, 5)) as nat, 5))
        } else {
            None
        }
    } else if b[0] == 253 && wide {
        if b.len() >= 9 {
            Some((spec_u64_from_le_bytes(b.subrange(1, 9)) as nat, 9))
        } else {
            None
        }
    } else {
        None
    }
}

/// A byte sequence on the wire: its length, then the bytes.
pub open spec fn bytes_field(b: Seq<u8>) -> Seq<u8> {
    varint(b.len()) + b
}

/// A string on the wire: its UTF-8 bytes as a byte sequence.
pub open spec fn text_field(s: Seq<char>) -> Seq<u8> {
    bytes_field(encode_utf8(s))
}

/// What reading a 32-bit integer at the start of `b` gives.
pub open spec fn u32_parse(b: Seq<u8>) -> Result<(u32, nat), WireError> {
    match varint_parse(b, false) {
        Some((v, k)) => Ok((v as u32, k)),
        None => Err(WireError::BadInteger),
    }
}

/// What reading a 64-bit integer at the start of `b` gives.
pub open spec fn u64_parse(b: Seq<u8>) -> Result<(u64, nat), WireError> {
    match varint_parse(b, true) {
        Some((v, k)) => Ok((v as u64, k)),
        None => Err(WireError::BadInteger),
    }
}

/// What reading a byte sequence at the start of `b` gives: the bytes and how
/// many bytes of `b` the field occupies.
pub open spec fn bytes_parse(b: Seq<u8>) -> Result<(Seq<u8>, nat), WireError> {
    match varint_parse(b, true) {
        None => Err(WireError::BadInteger),
        Some((n, k)) => if k + n <= b.len() {
            Ok((b.subrange(k as int, (k + n) as int), k + n))
        } else {
            Err(WireError::LengthOverrun)
        },
    }
}

/// What reading a string at the start of `b` gives.
pub open spec fn text_parse(b: Seq<u8>) -> Result<(Seq<char>, nat), WireError> {
    match bytes_parse(b) {
        Err(e) => Err(e),
        Ok((body, n)) => if valid_utf8(body) {
            Ok((decode_utf8(body), n))
        } else {
            Err(WireError::BadText)
        },
    }
}

/// `bincode::error::EncodeError`, carried through as an opaque value.
#[verifier::external_type_specification]
#[verifier::external_body]
pub struct ExEncodeError(bincode::error::EncodeError);

/// `bincode::error::DecodeError`, carried through as an opaque value.
#[verifier::external_type_specification]
#[verifier::external_body]
pub struct ExDecodeError(bincode::error::DecodeError);

/// `bincode::encode_to_vec` on a `u32`, standard configuration. Claimed of
/// it: writing into a vector cannot fail, and the bytes are the
/// variable-length encoding of the value.
#[verifier::external_body]
fn encode_u32(v: u32) -> (r: Result<Vec<u8>, bincode::error::EncodeError>)
    ensures
        r is Ok,
        r->Ok_0@ == varint(v as nat),
{
    bincode::encode_to_vec(v, bincode::config::standard())
}

/// `bincode::encode_to_vec` on a `u64`, standard configuration. Claimed of
/// it: writing into a vector cannot fail, and the bytes are the
/// variable-length encoding of the value.
#[verifier::external_body]
fn encode_u64(v: u64) -> (r: Result<Vec<u8>, bincode::error::EncodeError>)
    ensures
        r is Ok,
        r->Ok_0@ == varint(v as nat),
{
    bincode::encode_to_vec(v, bincode::config::standard())
}

/// `bincode::encode_to_vec` on a byte slice, standard configuration. Claimed
/// of it: writing into a vector cannot fail, and the bytes are the length of
/// the slice as a variable-length integer followed by the slice itself.
#[verifier::external_body]
fn encode_bytes(b: &[u8]) -> (r: Result<Vec<u8>, bincode::error::EncodeError>)
    ensures
        r is Ok,
        r->Ok_0@ == bytes_field(b@),
{
    bincode::encode_to_vec(b, bincode::config::standard())
}

/// `bincode::decode_from_slice` for a `u32`, standard configuration. Claimed
/// of it: it succeeds exactly when an integer without the 64-bit marker
/// starts `src`, and then returns that integer and the bytes it occupies.
#[verifier::external_body]
fn decode_u32(src: &[u8]) -> (r: Result<(u32, usize), bincode::error::DecodeError>)
    ensures
        match varint_parse(src@, false) {
            Some((v, k)) => r is Ok && r->Ok_0.0 == v && r->Ok_0.1 == k,
            None => r is Err,
        },
{
    bincode::decode_from_slice(src, bincode::config::standard())
}

/// `bincode::decode_from_slice` for a `u64`, standard configuration. Claimed
/// of it: it succeeds exactly when an integer starts `src`, and then returns
/// that integer and the bytes it occupies.
#[verifier::external_body]
fn decode_u64(src: &[u8]) -> (r: Result<(u64, usize), bincode::error::DecodeError>)
    ensures
        match varint_parse(src@, true) {
            Some((v, k)) => r is Ok && r->Ok_0.0 == v && r->Ok_0.1 == k,
            None => r is Err,
        },
{
    bincode::decode_from_slice(src, bincode::config::standard())
}

/// `bincode::decode_from_slice` for a `Vec<u8>`, standard configuration. It
/// allocates the announced length before it looks at what follows, so the
/// caller must have seen that the announced bytes are there. Claimed of it
/// then: it succeeds and returns those bytes and the size of the field.
#[verifier::external_body]
fn decode_bytes(src: &[u8]) -> (r: Result<(Vec<u8>, usize), bincode::error::DecodeError>)
    requires
        bytes_parse(src@) is Ok,
    ensures
        r is Ok,
        r->Ok_0.0@ == bytes_parse(src@)->Ok_0.0,
        r->Ok_0.1 == bytes_parse(src@)->Ok_0.1,
{
    bincode::decode_from_slice(src, bincode::config::standard())
}

/// `bincode::decode_from_slice` for a `String`, standard configuration. It
/// allocates the announced length before it looks at what follows, so the
/// caller must have seen that the announced bytes are there. Claimed of it
/// then: it succeeds exactly when those bytes are valid UTF-8, and returns
/// the string they spell and the size of the field.
#[verifier::external_body]
fn decode_text(src: &[u8]) -> (r: Result<(String, usize), bincode::error::DecodeError>)
    requires
        bytes_parse(src@) is Ok,
    ensures
        match text_parse(src@) {
            Ok((s, n)) => r is Ok && r->Ok_0.0@ == s && r->Ok_0.1 == n,
            Err(_) => r is Err,
        },
{
    bincode::decode_from_slice(src, bincode::config::standard())
}

/// Appends the encoding of a 32-bit integer to `buf`.
pub fn put_u32(buf: &mut Vec<u8>, v: u32)
    ensures
        final(buf)@ == old(buf)@ + varint(v as nat),
{
    match encode_u32(v) {
        Ok(mut bytes) => buf.append(&mut bytes),
        Err(_) => unreached(),
    }
}

/// Appends the encoding of a 64-bit integer to `buf`.
pub fn put_u64(buf: &mut Vec<u8>, v: u64)
    ensures
        final(buf)@ == old(buf)@ + varint(v as nat),
{
    match encode_u64(v) {
        Ok(mut bytes) => buf.append(&mut bytes),
        Err(_) => unreached(),
    }
}

/// Appends a length-prefixed byte sequence to `buf`.
pub fn put_bytes(buf: &mut Vec<u8>, b: &[u8])
    ensures
        final(buf)@ == old(buf)@ + bytes_field(b@),
{
    match encode_bytes(b) {
        Ok(mut bytes) => buf.append(&mut bytes),
        Err(_) => unreached(),
    }
}

/// Appends a length-prefixed string to `buf`.
pub fn put_text(buf: &mut Vec<u8>, s: &str)
    ensures
        final(buf)@ == old(buf)@ + text_field(s@),
        encode_utf8(s@).len() <= usize::MAX,
{
    let bytes = s.as_bytes();
    let _size: usize = bytes.len();
    put_bytes(buf, bytes);
}

/// Reads a 32-bit integer that starts at offset `at` of `src`; returns it
/// with the offset just behind it.
pub fn take_u32(src: &[u8], at: usize) -> (r: Result<(u32, usize), WireError>)
    requires
        at <= src@.len(),
    ensures
        match u32_parse(src@.skip(at as int)) {
            Ok((v, k)) => r is Ok && r->Ok_0.0 == v && r->Ok_0.1 == at + k && at + k
                <= src@.len(),
            Err(e) => r == Err::<(u32, usize), WireError>(e),
        },
{
    let rest = slice_subrange(src, at, src.len());
    match decode_u32(rest) {
        Ok((v, k)) => Ok((v, at + k)),
        Err(_) => Err(WireError::BadInteger),
    }
}

/// Reads a 64-bit integer that starts at offset `at` of `src`; returns it
/// with the offset just behind it.
pub fn take_u64(src: &[u8], at: usize) -> (r: Result<(u64, usize), WireError>)
    requires
        at <= src@.len(),
    ensures
        match u64_parse(src@.skip(at as int)) {
            Ok((v, k)) => r is Ok && r->Ok_0.0 == v && r->Ok_0.1 == at + k && at + k
                <= src@.len(),
            Err(e) => r == Err::<(u64, usize), WireError>(e),
        },
{
    let rest = slice_subrange(src, at, src.len());
    match decode_u64(rest) {
        Ok((v, k)) => Ok((v, at + k)),
        Err(_) => Err(WireError::BadInteger),
    }
}

/// Checks that a length-prefixed field starts at the beginning of `rest` and
/// lies wholly within it.
fn field_is_whole(rest: &[u8]) -> (r: Result<(), WireError>)
    ensures
        match bytes_parse(rest@) {
            Ok(_) => r is Ok,
            Err(e) => r == Err::<(), WireError>(e),
        },
{
    match decode_u64(rest) {
        Err(_) => Err(WireError::BadInteger),
        Ok((n, k)) => {
            if n <= (rest.len() - k) as u64 {
                Ok(())
            } else {
                Err(WireError::LengthOverrun)
            }
        },
    }
}

/// Reads a length-prefixed byte sequence that starts at offset `at` of
/// `src`; returns it with the offset just behind it.
pub fn take_bytes(src: &[u8], at: usize) -> (r: Result<(Vec<u8>, usize), WireError>)
    requires
        at <= src@.len(),
    ensures
        match bytes_parse(src@.skip(at as int)) {
            Ok((b, n)) => r is Ok && r->Ok_0.0@ == b && r->Ok_0.1 == at + n && at + n
                <= src@.len(),
            Err(e) => r == Err::<(Vec<u8>, usize), WireError>(e),
        },
{
    let rest = slice_subrange(src, at, src.len());
    match field_is_whole(rest) {
        Err(e) => Err(e),
        Ok(()) => match decode_bytes(rest) {
            Ok((b, n)) => Ok((b, at + n)),
            Err(_) => unreached(),
        },
    }
}

/// Reads a length-prefixed string that starts at offset `at` of `src`;
/// returns it with the offset just behind it.
pub fn take_text(src: &[u8], at: usize) -> (r: Result<(String, usize), WireError>)
    requires
        at <= src@.len(),
    ensures
        match text_parse(src@.skip(at as int)) {
            Ok((s, n)) => r is Ok && r->Ok_0.0@ == s && r->Ok_0.1 == at + n && at + n
                <= src@.len(),
            Err(e) => r == Err::<(String, usize), WireError>(e),
        },
{
    let rest = slice_subrange(src, at, src.len());
    match field_is_whole(rest) {
        Err(e) => Err(e),
        Ok(()) => match decode_text(rest) {
            Ok((s, n)) => Ok((s, at + n)),
            Err(_) => Err(WireError::BadText),
        },
    }
}

/// Reading gives back what was written: an encoded integer, whatever
/// follows it, is read as that integer and nothing more is consumed.
pub proof fn lemma_varint_round_trip(v: nat, rest: Seq<u8>, wide: bool)
    requires
        v <= u64::MAX,
        wide || v <= u32::MAX,
    ensures
        varint_parse(varint(v) + rest, wide) == Some((v, varint(v).len())),
        1 <= varint(v).len() <= 9,
{
    lemma_auto_spec_u16_to_from_le_bytes();
    lemma_auto_spec_u32_to_from_le_bytes();
    lemma_auto_spec_u64_to_from_le_bytes();
    let b = varint(v) + rest;
    if v <= 250 {
    } else if v <= 0xffff {
        assert(b.subrange(1, 3) =~= spec_u16_to_le_bytes(v as u16));
    } else if v <= 0xffff_ffff {
        assert(b.subrange(1, 5) =~= spec_u32_to_le_bytes(v as u32));
    } else {
        assert(b.subrange(1, 9) =~= spec_u64_to_le_bytes(v as u64));
    }
}

/// A written byte sequence, whatever follows it, is read back unchanged.
pub proof fn lemma_bytes_round_trip(b: Seq<u8>, rest: Seq<u8>)
    requires
        b.len() <= u64::MAX,
    ensures
        bytes_parse(bytes_field(b) + rest) == Ok::<(Seq<u8>, nat), WireError>(
            (b, bytes_field(b).len()),
        ),
{
    let head = varint(b.len());
    lemma_varint_round_trip(b.len(), b + rest, true);
    assert(bytes_field(b) + rest =~= head + (b + rest));
    let all = bytes_field(b) + rest;
    assert(all.subrange(head.len() as int, (head.len() + b.len()) as int) =~= b);
}

/// A written string, whatever follows it, is read back unchanged.
pub proof fn lemma_text_round_trip(s: Seq<char>, rest: Seq<u8>)
    requires
        encode_utf8(s).len() <= u64::MAX,
    ensures
        text_parse(text_field(s) + rest) == Ok::<(Seq<char>, nat), WireError>(
            (s, text_field(s).len()),
        ),
{
    lemma_bytes_round_trip(encode_utf8(s), rest);
    encode_utf8_valid_utf8(s);
    encode_utf8_decode_utf8(s);
}

} // verus!
