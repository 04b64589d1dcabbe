//! The byte layout of everything that crosses a trust boundary.
//!
//! Integers are fixed-width little-endian. A byte string is its length as a
//! 64-bit integer followed by the bytes; text is a byte string holding UTF-8.
//! A record is its fields in order, with nothing between them. A decoder reads
//! one value from the front of its input and ignores what follows.
use vstd::bytes::{spec_u32_from_le_bytes, spec_u32_to_le_bytes, spec_u64_from_le_bytes, spec_u64_to_le_bytes};
use vstd::bytes::{u32_from_le_bytes, u32_to_le_bytes, u64_from_le_bytes, u64_to_le_bytes};
use vstd::bytes::{lemma_auto_spec_u32_to_from_le_bytes, lemma_auto_spec_u64_to_from_le_bytes};
use vstd::prelude::*;
use vstd::slice::slice_subrange;
use vstd::utf8::{decode_utf8, encode_utf8, valid_utf8};
use vstd::utf8::{encode_utf8_decode_utf8, encode_utf8_valid_utf8};

verus! {

/// A type with a canonical byte encoding.
///
/// `wire_of` says what the bytes of a value are. `parse` says what a decoder
/// reads from the front of a byte string: the value, and how many bytes it
/// took. `lemma_round_trip` ties the two together.
pub trait Wire: View + Sized {
    /// The values whose lengths fit the encoding's 64-bit length fields.
    spec fn encodable(v: Self::V) -> bool;

    /// The canonical encoding of a value.
    spec fn wire_of(v: Self::V) -> Seq<u8>;

    /// The value at the front of `bytes`, with the number of bytes it
    /// occupies; `None` where `bytes` does not start with an encoding.
    spec fn parse(bytes: Seq<u8>) -> Option<(Self::V, nat)>;

    /// Decoding an encoding gives the value back, whatever follows it.
    proof fn lemma_round_trip(v: Self::V, rest: Seq<u8>)
        requires
            Self::encodable(v),
        ensures
            Self::parse(Self::wire_of(v) + rest) == Some((v, Self::wire_of(v).len())),
    ;

    /// A decoder takes no more than it was given.
    proof fn lemma_parse_bound(bytes: Seq<u8>)
        ensures
            Self::parse(bytes) matches Some((_, n)) ==> n <= bytes.len(),
    ;

    /// Writes the canonical encoding.
    fn encode(&self) -> (r: Vec<u8>)
        ensures
            Self::encodable(self@),
            r@ == Self::wire_of(self@),
    ;

    /// Reads one value from the front of `bytes`.
    fn decode(bytes: &[u8]) -> (r: Option<Self>)
        ensures
            match r {
                Some(v) => Self::parse(bytes@) matches Some((m, _)) && v@ == m,
                None => Self::parse(bytes@) is None,
            },
    ;
}

/// The eight bytes of a length field.
pub open spec fn len_prefix(n: nat) -> Seq<u8> {
    spec_u64_to_le_bytes(n as u64)
}

/// A byte string on the wire: its length, then its bytes.
pub open spec fn framed(b: Seq<u8>) -> Seq<u8> {
    len_prefix(b.len()) + b
}

/// The length field at the front of `bytes`.
pub open spec fn parse_len(bytes: Seq<u8>) -> Option<nat> {
    if bytes.len() >= 8 {
        Some(spec_u64_from_le_bytes(bytes.subrange(0, 8)) as nat)
    } else {
        None
    }
}

/// The byte string at the front of `bytes`, with the bytes it occupies.
pub open spec fn parse_framed(bytes: Seq<u8>) -> Option<(Seq<u8>, nat)> {
    match parse_len(bytes) {
        Some(n) => if n <= bytes.len() - 8 {
            Some((bytes.subrange(8, 8 + n as int), 8 + n))
        } else {
            None
        },
        None => None,
    }
}

/// Text on the wire: its UTF-8 bytes as a byte string.
pub open spec fn framed_text(s: Seq<char>) -> Seq<u8> {
    framed(encode_utf8(s))
}

/// The text at the front of `bytes`, with the bytes it occupies.
pub open spec fn parse_text(bytes: Seq<u8>) -> Option<(Seq<char>, nat)> {
    match parse_framed(bytes) {
        Some((b, n)) => if valid_utf8(b) {
            Some((decode_utf8(b), n))
        } else {
            None
        },
        None => None,
    }
}

/// The four bytes of a variant tag.
pub open spec fn tag_bytes(t: u32) -> Seq<u8> {
    spec_u32_to_le_bytes(t)
}

/// The variant tag at the front of `bytes`.
pub open spec fn parse_tag(bytes: Seq<u8>) -> Option<u32> {
    if bytes.len() >= 4 {
        Some(spec_u32_from_le_bytes(bytes.subrange(0, 4)))
    } else {
        None
    }
}

/// A length field reads back as the length written.
pub proof fn lemma_len_round_trip(n: nat, rest: Seq<u8>)
    requires
        n <= u64::MAX,
    ensures
        len_prefix(n).len() == 8,
        parse_len(len_prefix(n) + rest) == Some(n),
{
    lemma_auto_spec_u64_to_from_le_bytes();
    assert((len_prefix(n) + rest).subrange(0, 8) =~= len_prefix(n));
}

/// A byte string reads back as written, whatever follows it.
pub proof fn lemma_framed_round_trip(b: Seq<u8>, rest: Seq<u8>)
    requires
        b.len() <= u64::MAX,
    ensures
        framed(b).len() == 8 + b.len(),
        parse_framed(framed(b) + rest) == Some((b, framed(b).len())),
{
    lemma_auto_spec_u64_to_from_le_bytes();
    let all = framed(b) + rest;
    assert(all =~= len_prefix(b.len()) + (b + rest));
    lemma_len_round_trip(b.len(), b + rest);
    assert(all.subrange(8, 8 + b.len() as int) =~= b);
}

/// Text reads back as written, whatever follows it.
pub proof fn lemma_text_round_trip(s: Seq<char>, rest: Seq<u8>)
    requires
        encode_utf8(s).len() <= u64::MAX,
    ensures
        parse_text(framed_text(s) + rest) == Some((s, framed_text(s).len())),
{
    lemma_framed_round_trip(encode_utf8(s), rest);
    encode_utf8_valid_utf8(s);
    encode_utf8_decode_utf8(s);
}

/// A variant tag reads back as written, whatever follows it.
pub proof fn lemma_tag_round_trip(t: u32, rest: Seq<u8>)
    ensures
        tag_bytes(t).len() == 4,
        parse_tag(tag_bytes(t) + rest) == Some(t),
{
    lemma_auto_spec_u32_to_from_le_bytes();
    assert((tag_bytes(t) + rest).subrange(0, 4) =~= tag_bytes(t));
}

/// Appends every byte of `b` to `out`.
pub fn put_bytes(out: &mut Vec<u8>, b: &[u8])
    ensures
        final(out)@ == old(out)@ + b@,
{
    let mut i: usize = 0;
    while i < b.len()
        invariant
            i <= b@.len(),
            out@ == old(out)@ + b@.subrange(0, i as int),
        decreases b@.len() - i,
    {
        out.push(b[i]);
        assert(b@.subrange(0, i as int).push(b@[i as int]) =~= b@.subrange(0, i + 1));
        assert(out@ =~= old(out)@ + b@.subrange(0, i + 1));
        i += 1;
    }
    assert(b@.subrange(0, b@.len() as int) =~= b@);
}

/// Appends a length field to `out`.
pub fn put_len(out: &mut Vec<u8>, n: usize)
    ensures
        final(out)@ == old(out)@ + len_prefix(n as nat),
{
    let field = u64_to_le_bytes(n as u64);
    put_bytes(out, field.as_slice());
}

/// Appends a byte string, length first, to `out`.
pub fn put_framed(out: &mut Vec<u8>, b: &[u8])
    ensures
        final(out)@ == old(out)@ + framed(b@),
{
    put_len(out, b.len());
    put_bytes(out, b);
    assert(out@ =~= old(out)@ + framed(b@));
}

/// Appends text, as a byte string of UTF-8, to `out`.
pub fn put_text(out: &mut Vec<u8>, s: &str)
    ensures
        final(out)@ == old(out)@ + framed_text(s@),
        encode_utf8(s@).len() <= usize::MAX,
{
    let b = s.as_bytes();
    assert(b@.len() == b.len());
    put_framed(out, b);
}

/// Appends a variant tag to `out`.
pub fn put_tag(out: &mut Vec<u8>, t: u32)
    ensures
        final(out)@ == old(out)@ + tag_bytes(t),
{
    let field = u32_to_le_bytes(t);
    put_bytes(out, field.as_slice());
}

/// The bytes of `bytes` from `from` up to `to`, copied out.
pub fn copy_range(bytes: &[u8], from: usize, to: usize) -> (r: Vec<u8>)
    requires
        from <= to <= bytes@.len(),
    ensures
        r@ == bytes@.subrange(from as int, to as int),
{
    let mut out: Vec<u8> = Vec::new();
    put_bytes(&mut out, slice_subrange(bytes, from, to));
    assert(out@ =~= bytes@.subrange(from as int, to as int));
    out
}

/// Finds the byte string that starts at `pos`: the range its bytes occupy.
pub fn take_framed(bytes: &[u8], pos: usize) -> (r: Option<(usize, usize)>)
    requires
        pos <= bytes@.len(),
    ensures
        match r {
            Some((start, end)) => {
                &&& start == pos + 8
                &&& start <= end <= bytes@.len()
                &&& parse_framed(bytes@.skip(pos as int)) == Some(
                    (bytes@.subrange(start as int, end as int), (end - pos) as nat),
                )
            },
            None => parse_framed(bytes@.skip(pos as int)) is None,
        },
{
    let ghost tail = bytes@.skip(pos as int);
    if bytes.len() - pos < 8 {
        return None;
    }
    let n = u64_from_le_bytes(slice_subrange(bytes, pos, pos + 8));
    assert(bytes@.subrange(pos as int, pos + 8) =~= tail.subrange(0, 8));
    let room = bytes.len() - pos - 8;
    if n > room as u64 {
        return None;
    }
    let start = pos + 8;
    let end = start + n as usize;
    assert(tail.subrange(8, 8 + n) =~= bytes@.subrange(start as int, end as int));
    Some((start, end))
}

/// Valid UTF-8 turned into text by `String::from_utf8`, which accepts exactly
/// the byte strings that are UTF-8 and keeps their bytes.
#[verifier::external_body]
pub(crate) fn text_from_utf8(bytes: Vec<u8>) -> (r: Option<String>)
    ensures
        r is Some <==> valid_utf8(bytes@),
        r matches Some(s) ==> s@ == decode_utf8(bytes@),
{
    String::from_utf8(bytes).ok()
}

/// Reads the text that starts at `pos`, with the position just behind it.
pub fn take_text(bytes: &[u8], pos: usize) -> (r: Option<(String, usize)>)
    requires
        pos <= bytes@.len(),
    ensures
        match r {
            Some((s, end)) => {
                &&& pos <= end <= bytes@.len()
                &&& parse_text(bytes@.skip(pos as int)) == Some((s@, (end - pos) as nat))
            },
            None => parse_text(bytes@.skip(pos as int)) is None,
        },
{
    match take_framed(bytes, pos) {
        None => None,
        Some((start, end)) => {
            match text_from_utf8(copy_range(bytes, start, end)) {
                None => None,
                Some(s) => Some((s, end)),
            }
        },
    }
}

/// Reads the variant tag that starts at `pos`.
pub fn take_tag(bytes: &[u8], pos: usize) -> (r: Option<u32>)
    requires
        pos <= bytes@.len(),
    ensures
        r == parse_tag(bytes@.skip(pos as int)),
        r is Some ==> pos + 4 <= bytes@.len(),
{
    if bytes.len() - pos < 4 {
        return None;
    }
    let t = u32_from_le_bytes(slice_subrange(bytes, pos, pos + 4));
    assert(bytes@.subrange(pos as int, pos + 4) =~= bytes@.skip(pos as int).subrange(0, 4));
    Some(t)
}

impl Wire for String {
    open spec fn encodable(v: Seq<char>) -> bool {
        encode_utf8(v).len() <= u64::MAX
    }

    open spec fn wire_of(v: Seq<char>) -> Seq<u8> {
        framed_text(v)
    }

    open spec fn parse(bytes: Seq<u8>) -> Option<(Seq<char>, nat)> {
        parse_text(bytes)
    }

    proof fn lemma_round_trip(v: Seq<char>, rest: Seq<u8>) {
        lemma_text_round_trip(v, rest);
    }

    proof fn lemma_parse_bound(bytes: Seq<u8>) {
    }

    fn encode(&self) -> (r: Vec<u8>) {
        let mut out: Vec<u8> = Vec::new();
        put_text(&mut out, self.as_str());
        assert(out@ =~= framed_text(self@));
        out
    }

    fn decode(bytes: &[u8]) -> (r: Option<Self>) {
        assert(bytes@.skip(0) =~= bytes@);
        match take_text(bytes, 0) {
            None => None,
            Some((s, _)) => Some(s),
        }
    }
}

} // verus!
