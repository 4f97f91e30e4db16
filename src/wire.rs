//! Protocol-buffer field encoding: the varint and length-delimited forms that
//! the event messages are written in.

use vstd::prelude::*;

verus! {

/// Largest field number that a protocol-buffer key can carry.
pub const MAX_TAG: u64 = 536870911;

/// Wire type of varint-encoded fields (integers, booleans, enums).
pub const WIRE_VARINT: u64 = 0;

/// Wire type of length-delimited fields (bytes, strings, nested messages).
pub const WIRE_LEN: u64 = 2;

/// LEB128 encoding of `v`: seven bits per byte, least significant group
/// first, the high bit set on every byte but the last.
pub open spec fn varint(v: nat) -> Seq<u8>
    decreases v,
{
    if v < 128 {
        seq![v as u8]
    } else {
        seq![(v % 128 + 128) as u8] + varint(v / 128)
    }
}

/// The key that opens a field: field number and wire type in one varint.
pub open spec fn field_key(tag: nat, wire_type: nat) -> Seq<u8> {
    varint(tag * 8 + wire_type)
}

/// A `uint64` field; proto3 leaves out the default value zero.
pub open spec fn uint_field(tag: nat, v: u64) -> Seq<u8> {
    if v == 0 {
        Seq::empty()
    } else {
        field_key(tag, 0) + varint(v as nat)
    }
}

/// An `optional uint64` field: written whenever present, zero included.
pub open spec fn opt_uint_field(tag: nat, v: Option<u64>) -> Seq<u8> {
    match v {
        Some(x) => field_key(tag, 0) + varint(x as nat),
        None => Seq::empty(),
    }
}

/// A `bool` field; `false` is left out.
pub open spec fn bool_field(tag: nat, b: bool) -> Seq<u8> {
    if b {
        field_key(tag, 0) + varint(1)
    } else {
        Seq::empty()
    }
}

/// A length-delimited field whose content is always written.
pub open spec fn len_field(tag: nat, b: Seq<u8>) -> Seq<u8> {
    field_key(tag, 2) + varint(b.len()) + b
}

/// A `bytes` field; the empty value is left out.
pub open spec fn bytes_field(tag: nat, b: Seq<u8>) -> Seq<u8> {
    if b.len() == 0 {
        Seq::empty()
    } else {
        len_field(tag, b)
    }
}

/// An `optional bytes` field: written whenever present, empty included.
pub open spec fn opt_bytes_field(tag: nat, b: Option<Seq<u8>>) -> Seq<u8> {
    match b {
        Some(x) => len_field(tag, x),
        None => Seq::empty(),
    }
}

/// Relies on prost::encoding::encode_varint: appends the LEB128 form of
/// `value` to the buffer.
#[verifier::external_body]
fn put_varint(value: u64, buf: &mut Vec<u8>)
    ensures
        final(buf)@ == old(buf)@ + varint(value as nat),
{
    prost::encoding::encode_varint(value, buf)
}

fn put_key(tag: u64, wire_type: u64, buf: &mut Vec<u8>)
    requires
        1 <= tag <= MAX_TAG,
        wire_type < 8,
    ensures
        final(buf)@ == old(buf)@ + field_key(tag as nat, wire_type as nat),
{
    put_varint(tag * 8 + wire_type, buf);
}

/// Appends a `uint64` field.
pub fn put_uint(tag: u64, v: u64, buf: &mut Vec<u8>)
    requires
        1 <= tag <= MAX_TAG,
    ensures
        final(buf)@ == old(buf)@ + uint_field(tag as nat, v),
{
    if v != 0 {
        put_key(tag, WIRE_VARINT, buf);
        put_varint(v, buf);
        assert(final(buf)@ =~= old(buf)@ + uint_field(tag as nat, v));
    } else {
        assert(final(buf)@ =~= old(buf)@ + uint_field(tag as nat, v));
    }
}

/// Appends an `optional uint64` field.
pub fn put_opt_uint(tag: u64, v: Option<u64>, buf: &mut Vec<u8>)
    requires
        1 <= tag <= MAX_TAG,
    ensures
        final(buf)@ == old(buf)@ + opt_uint_field(tag as nat, v),
{
    match v {
        Some(x) => {
            put_key(tag, WIRE_VARINT, buf);
            put_varint(x, buf);
        },
        None => {},
    }
    assert(final(buf)@ =~= old(buf)@ + opt_uint_field(tag as nat, v));
}

/// Appends a `bool` field.
pub fn put_bool(tag: u64, b: bool, buf: &mut Vec<u8>)
    requires
        1 <= tag <= MAX_TAG,
    ensures
        final(buf)@ == old(buf)@ + bool_field(tag as nat, b),
{
    if b {
        put_key(tag, WIRE_VARINT, buf);
        put_varint(1, buf);
    }
    assert(final(buf)@ =~= old(buf)@ + bool_field(tag as nat, b));
}

fn put_len_delimited(tag: u64, b: &[u8], buf: &mut Vec<u8>)
    requires
        1 <= tag <= MAX_TAG,
    ensures
        final(buf)@ == old(buf)@ + len_field(tag as nat, b@),
{
    put_key(tag, WIRE_LEN, buf);
    put_varint(b.len() as u64, buf);
    let ghost mid = buf@;
    buf.extend_from_slice(b);
    assert(buf@ =~= mid + b@);
    assert(final(buf)@ =~= old(buf)@ + len_field(tag as nat, b@));
}

/// Appends a `bytes` field.
pub fn put_bytes(tag: u64, b: &[u8], buf: &mut Vec<u8>)
    requires
        1 <= tag <= MAX_TAG,
    ensures
        final(buf)@ == old(buf)@ + bytes_field(tag as nat, b@),
{
    if b.len() != 0 {
        put_len_delimited(tag, b, buf);
    }
    assert(final(buf)@ =~= old(buf)@ + bytes_field(tag as nat, b@));
}

/// Appends an `optional bytes` field.
pub fn put_opt_bytes(tag: u64, b: &Option<Vec<u8>>, buf: &mut Vec<u8>)
    requires
        1 <= tag <= MAX_TAG,
    ensures
        final(buf)@ == old(buf)@ + opt_bytes_field(tag as nat, opt_bytes_view(b)),
{
    match b {
        Some(x) => put_len_delimited(tag, x.as_slice(), buf),
        None => {},
    }
    assert(final(buf)@ =~= old(buf)@ + opt_bytes_field(tag as nat, opt_bytes_view(b)));
}

/// The bytes that an optional byte vector holds, if any.
pub open spec fn opt_bytes_view(b: &Option<Vec<u8>>) -> Option<Seq<u8>> {
    match b {
        Some(x) => Some(x@),
        None => None,
    }
}

} // verus!
