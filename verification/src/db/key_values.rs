//! Values that the store keeps under a key, as bytes.
//!
//! A value is written as a sequence of fields. Each field is a tag of one
//! byte, the length of its value in 8 bytes, little endian, and the value.

use vstd::bytes::{spec_u64_from_le_bytes, spec_u64_to_le_bytes, u64_from_le_bytes, u64_to_le_bytes};
use vstd::prelude::*;
use vstd::slice::{slice_subrange, slice_to_vec};
use vstd::utf8::{encode_utf8, valid_utf8};

verus! {

/// A value that the store keeps under a key of its type.
pub trait KeyedMessage: Sized {
    /// The key under which values of the type are kept.
    fn key() -> &'static str;

    /// Writes the value as bytes.
    fn encode_to_vec(&self) -> Vec<u8>;

    /// Reads a value from bytes, or nothing where the bytes are no value.
    fn decode(bytes: &Vec<u8>) -> Option<Self>;
}

/// Bytes before the value of a field: the tag and the length.
pub const HEADER: usize = 9;

/// The bytes of a field.
pub open spec fn field(tag: u8, value: Seq<u8>) -> Seq<u8> {
    seq![tag] + spec_u64_to_le_bytes(value.len() as u64) + value
}

/// A field at the head of bytes, and what follows it.
pub struct FieldView {
    pub tag: u8,
    pub value: Seq<u8>,
    pub rest: Seq<u8>,
}

/// The field at the head of bytes, or `None` where the bytes end before the
/// field does.
pub open spec fn first_field(bytes: Seq<u8>) -> Option<FieldView> {
    if bytes.len() < HEADER {
        None
    } else {
        let len = spec_u64_from_le_bytes(bytes.subrange(1, HEADER as int));
        if bytes.len() - HEADER < len {
            None
        } else {
            Some(
                FieldView {
                    tag: bytes[0],
                    value: bytes.subrange(HEADER as int, HEADER + len),
                    rest: bytes.skip(HEADER + len),
                },
            )
        }
    }
}

/// A field that was written is read back, together with what follows it.
pub proof fn lemma_first_field(tag: u8, value: Seq<u8>, rest: Seq<u8>)
    requires
        value.len() <= u64::MAX,
    ensures
        first_field(field(tag, value) + rest) == Some(FieldView { tag, value, rest }),
{
    vstd::bytes::lemma_auto_spec_u64_to_from_le_bytes();
    let bytes = field(tag, value) + rest;
    let len = spec_u64_to_le_bytes(value.len() as u64);
    assert(bytes.subrange(1, HEADER as int) == len);
    assert(bytes.subrange(HEADER as int, HEADER + value.len()) == value);
    assert(bytes.skip(HEADER + value.len()) == rest);
}

/// Appends a field.
pub fn push_field(out: &mut Vec<u8>, tag: u8, value: &[u8])
    ensures
        final(out)@ == old(out)@ + field(tag, value@),
{
    out.push(tag);
    let mut len = u64_to_le_bytes(value.len() as u64);
    out.append(&mut len);
    let mut copy = slice_to_vec(value);
    out.append(&mut copy);
}

/// Where the value of the field at `at` begins and ends.
pub fn read_field(bytes: &Vec<u8>, at: usize) -> (r: Option<(u8, usize, usize)>)
    requires
        at <= bytes.len(),
    ensures
        match r {
            Some((tag, from, to)) => {
                &&& at < from <= to <= bytes.len()
                &&& first_field(bytes@.skip(at as int)) == Some(
                    FieldView {
                        tag,
                        value: bytes@.subrange(from as int, to as int),
                        rest: bytes@.skip(to as int),
                    },
                )
            },
            None => first_field(bytes@.skip(at as int)) is None,
        },
{
    let ghost rest = bytes@.skip(at as int);
    if bytes.len() - at < HEADER {
        return None;
    }
    let from = at + HEADER;
    let len = u64_from_le_bytes(slice_subrange(bytes.as_slice(), at + 1, from));
    assert(bytes@.subrange(at + 1, from as int) == rest.subrange(1, HEADER as int));
    if ((bytes.len() - from) as u64) < len {
        return None;
    }
    let to = from + len as usize;
    assert(rest.subrange(HEADER as int, HEADER + len) == bytes@.subrange(from as int, to as int));
    assert(rest.skip(HEADER + len) == bytes@.skip(to as int));
    Some((bytes[at], from, to))
}

/// Calls `String::from_utf8`: the string whose UTF-8 encoding the bytes are,
/// or nothing where the bytes are no UTF-8.
#[verifier::external_body]
fn string_from_utf8(bytes: Vec<u8>) -> (r: Option<String>)
    ensures
        r is Some <==> valid_utf8(bytes@),
        r matches Some(text) ==> encode_utf8(text@) == bytes@,
{
    String::from_utf8(bytes).ok()
}

/// The text that bytes encode.
pub open spec fn text_of(bytes: Seq<u8>) -> Option<Seq<char>> {
    if valid_utf8(bytes) {
        Some(vstd::utf8::decode_utf8(bytes))
    } else {
        None
    }
}

/// Reads the text that `bytes[from..to]` encode.
pub fn read_text(bytes: &Vec<u8>, from: usize, to: usize) -> (r: Option<String>)
    requires
        from <= to <= bytes.len(),
    ensures
        r.deep_view() == text_of(bytes@.subrange(from as int, to as int)),
{
    let value = slice_to_vec(slice_subrange(bytes.as_slice(), from, to));
    match string_from_utf8(value) {
        Some(text) => {
            proof {
                vstd::utf8::encode_utf8_decode_utf8(text@);
            }
            Some(text)
        },
        None => None,
    }
}

/// The text that the encoding of a text encodes is the text.
pub proof fn lemma_text_round_trip(text: Seq<char>)
    ensures
        text_of(encode_utf8(text)) == Some(text),
{
    vstd::utf8::encode_utf8_valid_utf8(text);
    vstd::utf8::encode_utf8_decode_utf8(text);
}

} // verus!
