//! The protocol-buffer wire format, as far as events need it.
//!
//! The format of each kind of field is stated here as a function from values
//! to bytes. The bytes themselves are produced by `prost`.

use vstd::prelude::*;
use vstd::bytes::*;
use vstd::utf8::encode_utf8;

verus! {

/// The largest field number the wire format allows.
pub const MAX_TAG: u32 = 0x1fff_ffff;

/// Wire type of a field that holds a varint.
pub const WIRE_VARINT: u32 = 0;

/// Wire type of a field that holds eight little-endian bytes.
pub const WIRE_FIXED64: u32 = 1;

/// Wire type of a field that holds a length and that many bytes.
pub const WIRE_LENGTH_DELIMITED: u32 = 2;

/// Wire type of a field that holds four little-endian bytes.
pub const WIRE_FIXED32: u32 = 5;

/// Whether `tag` may number a field.
pub open spec fn valid_tag(tag: u32) -> bool {
    1 <= tag <= MAX_TAG
}

/// A number in base 128, least significant digit first, every digit but the
/// last with its high bit set.
pub open spec fn varint(value: u64) -> Seq<u8>
    decreases value,
{
    if value < 0x80 {
        seq![value as u8]
    } else {
        seq![(value % 0x80 + 0x80) as u8] + varint(value / 0x80)
    }
}

/// The key that starts a field: its number and wire type in one varint.
pub open spec fn key(tag: u32, wire_type: u32) -> Seq<u8> {
    varint((tag * 8 + wire_type) as u64)
}

/// A field that holds a varint.
pub open spec fn varint_field(tag: u32, value: u64) -> Seq<u8> {
    key(tag, WIRE_VARINT) + varint(value)
}

/// A field that holds eight little-endian bytes.
pub open spec fn fixed64_field(tag: u32, value: u64) -> Seq<u8> {
    key(tag, WIRE_FIXED64) + spec_u64_to_le_bytes(value)
}

/// A field that holds four little-endian bytes.
pub open spec fn fixed32_field(tag: u32, value: u32) -> Seq<u8> {
    key(tag, WIRE_FIXED32) + spec_u32_to_le_bytes(value)
}

/// A field that holds a length and that many bytes: a byte string, a text in
/// UTF-8, or an embedded message.
pub open spec fn bytes_field(tag: u32, payload: Seq<u8>) -> Seq<u8> {
    key(tag, WIRE_LENGTH_DELIMITED) + varint(payload.len() as u64) + payload
}

/// The little-endian bytes of each of `values`, in order.
pub open spec fn fixed64_run(values: Seq<u64>) -> Seq<u8>
    decreases values.len(),
{
    if values.len() == 0 {
        Seq::empty()
    } else {
        fixed64_run(values.drop_last()) + spec_u64_to_le_bytes(values.last())
    }
}

/// A packed field of eight-byte values. An empty one takes no bytes at all.
pub open spec fn packed_fixed64_field(tag: u32, values: Seq<u64>) -> Seq<u8> {
    if values.len() == 0 {
        Seq::empty()
    } else {
        bytes_field(tag, fixed64_run(values))
    }
}

/// Appends a signed 64-bit varint field by `prost::encoding::int64::encode`:
/// the key, then the value in two's complement as a varint.
#[verifier::external_body]
pub(crate) fn put_int64(tag: u32, value: i64, buf: &mut Vec<u8>)
    requires
        valid_tag(tag),
    ensures
        final(buf)@ == old(buf)@ + varint_field(tag, value as u64),
{
    prost::encoding::int64::encode(tag, &value, buf)
}

/// Appends a signed 32-bit varint field by `prost::encoding::int32::encode`:
/// the key, then the value sign-extended to 64 bits as a varint.
#[verifier::external_body]
pub(crate) fn put_int32(tag: u32, value: i32, buf: &mut Vec<u8>)
    requires
        valid_tag(tag),
    ensures
        final(buf)@ == old(buf)@ + varint_field(tag, value as u64),
{
    prost::encoding::int32::encode(tag, &value, buf)
}

/// Appends an eight-byte field by `prost::encoding::fixed64::encode`: the
/// key, then the value in little-endian order. A 64-bit float goes through
/// here by its bit pattern, which gives the bytes of a `double` field.
#[verifier::external_body]
pub(crate) fn put_fixed64(tag: u32, value: u64, buf: &mut Vec<u8>)
    requires
        valid_tag(tag),
    ensures
        final(buf)@ == old(buf)@ + fixed64_field(tag, value),
{
    prost::encoding::fixed64::encode(tag, &value, buf)
}

/// Appends a four-byte field by `prost::encoding::fixed32::encode`: the key,
/// then the value in little-endian order. A 32-bit float goes through here
/// by its bit pattern, which gives the bytes of a `float` field.
#[verifier::external_body]
pub(crate) fn put_fixed32(tag: u32, value: u32, buf: &mut Vec<u8>)
    requires
        valid_tag(tag),
    ensures
        final(buf)@ == old(buf)@ + fixed32_field(tag, value),
{
    prost::encoding::fixed32::encode(tag, &value, buf)
}

/// Appends a text field by `prost::encoding::string::encode`: the key, the
/// length of the text in bytes, then the text in UTF-8.
#[verifier::external_body]
pub(crate) fn put_string(tag: u32, value: &String, buf: &mut Vec<u8>)
    requires
        valid_tag(tag),
    ensures
        final(buf)@ == old(buf)@ + bytes_field(tag, encode_utf8(value@)),
{
    prost::encoding::string::encode(tag, value, buf)
}

/// Appends a byte-string field by `prost::encoding::bytes::encode`: the key,
/// the number of bytes, then the bytes.
#[verifier::external_body]
pub(crate) fn put_bytes(tag: u32, value: &Vec<u8>, buf: &mut Vec<u8>)
    requires
        valid_tag(tag),
    ensures
        final(buf)@ == old(buf)@ + bytes_field(tag, value@),
{
    prost::encoding::bytes::encode(tag, value, buf)
}

/// The little-endian bytes of each of `values`, in order.
pub fn fixed64_run_bytes(values: &Vec<u64>) -> (bytes: Vec<u8>)
    ensures
        bytes@ == fixed64_run(values@),
{
    let mut bytes: Vec<u8> = Vec::new();
    let mut i: usize = 0;
    while i < values.len()
        invariant
            i <= values.len(),
            bytes@ == fixed64_run(values@.take(i as int)),
        decreases values.len() - i,
    {
        proof {
            let next = values@.take(i + 1);
            assert(next.drop_last() =~= values@.take(i as int));
        }
        let mut word = u64_to_le_bytes(values[i]);
        bytes.append(&mut word);
        i += 1;
    }
    proof {
        assert(values@.take(i as int) =~= values@);
    }
    bytes
}

/// Appends a packed field of eight-byte values: nothing if there are none,
/// else a length-delimited field that holds their little-endian bytes.
pub(crate) fn put_packed_fixed64(tag: u32, values: &Vec<u64>, buf: &mut Vec<u8>)
    requires
        valid_tag(tag),
    ensures
        final(buf)@ == old(buf)@ + packed_fixed64_field(tag, values@),
{
    if values.len() > 0 {
        let run = fixed64_run_bytes(values);
        put_bytes(tag, &run, buf);
    } else {
        assert(buf@ + Seq::<u8>::empty() =~= buf@);
    }
}

/// Whether `bits` is the pattern of a 64-bit float equal to zero, of
/// either sign.
pub open spec fn is_zero64(bits: u64) -> bool {
    bits == 0 || bits == 0x8000_0000_0000_0000
}

/// A 64-bit float field, given by its bit pattern. A zero is the default and
/// takes no bytes.
pub open spec fn double_field(tag: u32, bits: u64) -> Seq<u8> {
    if is_zero64(bits) {
        Seq::empty()
    } else {
        fixed64_field(tag, bits)
    }
}

/// A signed integer field. A zero is the default and takes no bytes.
pub open spec fn int64_field(tag: u32, value: i64) -> Seq<u8> {
    if value == 0 {
        Seq::empty()
    } else {
        varint_field(tag, value as u64)
    }
}

/// A text field. An empty text is the default and takes no bytes.
pub open spec fn text_field(tag: u32, text: Seq<char>) -> Seq<u8> {
    if text.len() == 0 {
        Seq::empty()
    } else {
        bytes_field(tag, encode_utf8(text))
    }
}

/// A field of an embedded message that may be absent. An absent one takes
/// no bytes; a present one is written even if its encoding is empty.
pub open spec fn optional_message_field(tag: u32, message: Option<Seq<u8>>) -> Seq<u8> {
    match message {
        Some(encoding) => bytes_field(tag, encoding),
        None => Seq::empty(),
    }
}

/// Appends a 64-bit float field unless the float is zero.
pub(crate) fn put_double(tag: u32, bits: u64, buf: &mut Vec<u8>)
    requires
        valid_tag(tag),
    ensures
        final(buf)@ == old(buf)@ + double_field(tag, bits),
{
    if bits != 0 && bits != 0x8000_0000_0000_0000 {
        put_fixed64(tag, bits, buf);
    } else {
        assert(buf@ + Seq::<u8>::empty() =~= buf@);
    }
}

/// Appends a signed integer field unless the integer is zero.
pub(crate) fn put_nonzero_int64(tag: u32, value: i64, buf: &mut Vec<u8>)
    requires
        valid_tag(tag),
    ensures
        final(buf)@ == old(buf)@ + int64_field(tag, value),
{
    if value != 0 {
        put_int64(tag, value, buf);
    } else {
        assert(buf@ + Seq::<u8>::empty() =~= buf@);
    }
}

/// Appends a text field unless the text is empty.
pub(crate) fn put_text(tag: u32, text: &String, buf: &mut Vec<u8>)
    requires
        valid_tag(tag),
    ensures
        final(buf)@ == old(buf)@ + text_field(tag, text@),
{
    if !text.as_str().is_empty() {
        put_string(tag, text, buf);
    } else {
        assert(buf@ + Seq::<u8>::empty() =~= buf@);
    }
}

} // verus!
