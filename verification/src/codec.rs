//! Fixed-width integers as bytes, in either byte order, and text as UTF-8:
//! the encodings that the scalar conversions share.

use vstd::prelude::*;
use vstd::string::StringSliceAdditionalSpecFns;
use vstd::utf8::{decode_utf8, encode_utf8, valid_utf8};

verus! {

/// The unsigned number that four bytes spell, most significant first.
pub open spec fn be_u32(bytes: Seq<u8>) -> int
    recommends
        bytes.len() == 4,
{
    bytes[0] * 0x100_0000 + bytes[1] * 0x1_0000 + bytes[2] * 0x100 + bytes[3]
}

/// The signed number that four bytes spell in two's complement, most
/// significant first.
pub open spec fn be_i32(bytes: Seq<u8>) -> int
    recommends
        bytes.len() == 4,
{
    if be_u32(bytes) >= 0x8000_0000 {
        be_u32(bytes) - 0x1_0000_0000
    } else {
        be_u32(bytes)
    }
}

/// The four bytes that spell `value` in two's complement, most significant
/// first.
pub open spec fn i32_be(value: i32) -> Seq<u8> {
    let unsigned: int = if value < 0 {
        value + 0x1_0000_0000
    } else {
        value as int
    };
    seq![
        (unsigned / 0x100_0000) as u8,
        (unsigned / 0x1_0000 % 0x100) as u8,
        (unsigned / 0x100 % 0x100) as u8,
        (unsigned % 0x100) as u8,
    ]
}

/// Reading back the bytes of a number gives the number.
pub proof fn lemma_i32_round_trip(value: i32)
    ensures
        i32_be(value).len() == 4,
        be_i32(i32_be(value)) == value,
{
}

/// Reads a 32-bit signed integer from four bytes.
pub fn read_i32_be(bytes: &[u8]) -> (value: i32)
    requires
        bytes@.len() == 4,
    ensures
        value == be_i32(bytes@),
{
    let unsigned: u32 = (bytes[0] as u32) * 0x100_0000 + (bytes[1] as u32) * 0x1_0000 + (
    bytes[2] as u32) * 0x100 + (bytes[3] as u32);
    if unsigned >= 0x8000_0000 {
        ((unsigned as i64) - 0x1_0000_0000) as i32
    } else {
        unsigned as i32
    }
}

/// Writes a 32-bit signed integer as four bytes at the end of `out`.
pub fn write_i32_be(value: i32, out: &mut Vec<u8>)
    ensures
        final(out)@ == old(out)@ + i32_be(value),
{
    let unsigned: i64 = if value < 0 {
        (value as i64) + 0x1_0000_0000
    } else {
        value as i64
    };
    out.push((unsigned / 0x100_0000) as u8);
    out.push((unsigned / 0x1_0000 % 0x100) as u8);
    out.push((unsigned / 0x100 % 0x100) as u8);
    out.push((unsigned % 0x100) as u8);
    assert(out@ =~= old(out)@ + i32_be(value));
}

/// The unsigned number that eight bytes spell, most significant first.
pub open spec fn be_u64(bytes: Seq<u8>) -> int
    recommends
        bytes.len() == 8,
{
    be_u32(bytes.subrange(0, 4)) * 0x1_0000_0000 + be_u32(bytes.subrange(4, 8))
}

/// The signed number that eight bytes spell in two's complement, most
/// significant first.
pub open spec fn be_i64(bytes: Seq<u8>) -> int
    recommends
        bytes.len() == 8,
{
    if be_u64(bytes) >= 0x8000_0000_0000_0000 {
        be_u64(bytes) - 0x1_0000_0000_0000_0000
    } else {
        be_u64(bytes)
    }
}

/// The four bytes that spell the unsigned number `value`, most significant
/// first.
pub open spec fn u32_be(value: int) -> Seq<u8> {
    seq![
        (value / 0x100_0000) as u8,
        (value / 0x1_0000 % 0x100) as u8,
        (value / 0x100 % 0x100) as u8,
        (value % 0x100) as u8,
    ]
}

/// The eight bytes that spell `value` in two's complement, most significant
/// first.
pub open spec fn i64_be(value: i64) -> Seq<u8> {
    let unsigned: int = if value < 0 {
        value + 0x1_0000_0000_0000_0000
    } else {
        value as int
    };
    u32_be(unsigned / 0x1_0000_0000) + u32_be(unsigned % 0x1_0000_0000)
}

/// Reading back the four bytes of an unsigned number gives the number.
pub proof fn lemma_u32_round_trip(value: int)
    requires
        0 <= value < 0x1_0000_0000,
    ensures
        u32_be(value).len() == 4,
        be_u32(u32_be(value)) == value,
{
}

/// Reading back the bytes of a number gives the number, for eight bytes too.
pub proof fn lemma_i64_round_trip(value: i64)
    ensures
        i64_be(value).len() == 8,
        be_i64(i64_be(value)) == value,
{
    let unsigned: int = if value < 0 {
        value + 0x1_0000_0000_0000_0000
    } else {
        value as int
    };
    let high = unsigned / 0x1_0000_0000;
    let low = unsigned % 0x1_0000_0000;
    lemma_u32_round_trip(high);
    lemma_u32_round_trip(low);
    assert(i64_be(value).subrange(0, 4) =~= u32_be(high));
    assert(i64_be(value).subrange(4, 8) =~= u32_be(low));
}

/// Reads an unsigned number from four bytes, most significant first.
fn read_u32_be(bytes: &[u8], from: usize) -> (value: u32)
    requires
        from + 4 <= bytes@.len(),
    ensures
        value == be_u32(bytes@.subrange(from as int, from + 4)),
{
    (bytes[from] as u32) * 0x100_0000 + (bytes[from + 1] as u32) * 0x1_0000 + (bytes[from
        + 2] as u32) * 0x100 + (bytes[from + 3] as u32)
}

/// Reads a 64-bit signed integer from eight bytes.
pub fn read_i64_be(bytes: &[u8]) -> (value: i64)
    requires
        bytes@.len() == 8,
    ensures
        value == be_i64(bytes@),
{
    let high = read_u32_be(bytes, 0) as u64;
    let low = read_u32_be(bytes, 4) as u64;
    let unsigned: u64 = high * 0x1_0000_0000 + low;
    if unsigned >= 0x8000_0000_0000_0000 {
        ((unsigned as i128) - 0x1_0000_0000_0000_0000) as i64
    } else {
        unsigned as i64
    }
}

/// Writes an unsigned number as four bytes at the end of `out`.
fn write_u32_be(value: u32, out: &mut Vec<u8>)
    ensures
        final(out)@ == old(out)@ + u32_be(value as int),
{
    out.push((value / 0x100_0000) as u8);
    out.push((value / 0x1_0000 % 0x100) as u8);
    out.push((value / 0x100 % 0x100) as u8);
    out.push((value % 0x100) as u8);
    assert(out@ =~= old(out)@ + u32_be(value as int));
}

/// Writes a 64-bit signed integer as eight bytes at the end of `out`.
pub fn write_i64_be(value: i64, out: &mut Vec<u8>)
    ensures
        final(out)@ == old(out)@ + i64_be(value),
{
    let unsigned: i128 = if value < 0 {
        (value as i128) + 0x1_0000_0000_0000_0000
    } else {
        value as i128
    };
    write_u32_be((unsigned / 0x1_0000_0000) as u32, out);
    write_u32_be((unsigned % 0x1_0000_0000) as u32, out);
    assert(out@ =~= old(out)@ + i64_be(value));
}

/// The four bytes in the opposite order.
pub open spec fn reversed4(bytes: Seq<u8>) -> Seq<u8>
    recommends
        bytes.len() == 4,
{
    seq![bytes[3], bytes[2], bytes[1], bytes[0]]
}

/// The signed number that four bytes spell in two's complement, least
/// significant first.
pub open spec fn le_i32(bytes: Seq<u8>) -> int
    recommends
        bytes.len() == 4,
{
    be_i32(reversed4(bytes))
}

/// The four bytes that spell `value` in two's complement, least significant
/// first.
pub open spec fn i32_le(value: i32) -> Seq<u8> {
    reversed4(i32_be(value))
}

/// Reading back the bytes of a number gives the number, in this order too.
pub proof fn lemma_i32_le_round_trip(value: i32)
    ensures
        i32_le(value).len() == 4,
        le_i32(i32_le(value)) == value,
{
    lemma_i32_round_trip(value);
    assert(reversed4(i32_le(value)) =~= i32_be(value));
}

/// Reads a 32-bit signed integer from four bytes, least significant first.
pub fn read_i32_le(bytes: &[u8]) -> (value: i32)
    requires
        bytes@.len() == 4,
    ensures
        value == le_i32(bytes@),
{
    let swapped: [u8; 4] = [bytes[3], bytes[2], bytes[1], bytes[0]];
    assert(swapped@ =~= reversed4(bytes@));
    read_i32_be(swapped.as_slice())
}

/// Writes a 32-bit signed integer as four bytes, least significant first, at
/// the end of `out`.
pub fn write_i32_le(value: i32, out: &mut Vec<u8>)
    ensures
        final(out)@ == old(out)@ + i32_le(value),
{
    let mut bytes: Vec<u8> = Vec::new();
    write_i32_be(value, &mut bytes);
    assert(bytes@ =~= i32_be(value));
    out.push(bytes[3]);
    out.push(bytes[2]);
    out.push(bytes[1]);
    out.push(bytes[0]);
    assert(out@ =~= old(out)@ + i32_le(value));
}

/// The text that `bytes` spell in UTF-8, if they spell any.
pub open spec fn text_of(bytes: Seq<u8>) -> Option<Seq<char>> {
    if valid_utf8(bytes) {
        Some(decode_utf8(bytes))
    } else {
        None
    }
}

/// Reading back the UTF-8 bytes of a text gives the text.
pub proof fn lemma_text_round_trip(text: Seq<char>)
    ensures
        text_of(encode_utf8(text)) == Some(text),
{
    vstd::utf8::encode_utf8_valid_utf8(text);
    vstd::utf8::encode_utf8_decode_utf8(text);
}

/// `core::str::from_utf8`: the bytes as a string slice, if and only if they
/// are valid UTF-8; the slice is made of exactly those bytes.
#[verifier::external_body]
fn str_from_utf8(bytes: &[u8]) -> (text: Option<&str>)
    ensures
        text is Some <==> valid_utf8(bytes@),
        text matches Some(s) ==> s.spec_bytes() == bytes@,
{
    core::str::from_utf8(bytes).ok()
}

/// Reads text from its UTF-8 bytes; `None` where the bytes are not UTF-8.
pub fn read_text(bytes: &[u8]) -> (text: Option<&str>)
    ensures
        text is Some <==> text_of(bytes@) is Some,
        text matches Some(s) ==> Some(s@) == text_of(bytes@),
{
    let text = str_from_utf8(bytes);
    proof {
        if let Some(s) = text {
            vstd::utf8::encode_utf8_decode_utf8(s@);
        }
    }
    text
}

/// Whether two string slices hold the same text. The bytes decide: equal
/// texts have equal UTF-8 bytes, and equal bytes spell equal texts.
pub fn str_eq(a: &str, b: &str) -> (same: bool)
    ensures
        same == (a@ == b@),
{
    let left = a.as_bytes();
    let right = b.as_bytes();
    proof {
        vstd::utf8::encode_utf8_decode_utf8(a@);
        vstd::utf8::encode_utf8_decode_utf8(b@);
    }
    if left.len() != right.len() {
        return false;
    }
    let mut i: usize = 0;
    while i < left.len()
        invariant
            i <= left@.len(),
            left@.len() == right@.len(),
            left@ == encode_utf8(a@),
            right@ == encode_utf8(b@),
            forall|k: int| 0 <= k < i ==> left@[k] == right@[k],
        decreases left@.len() - i,
    {
        if left[i] != right[i] {
            return false;
        }
        i += 1;
    }
    assert(left@ =~= right@);
    true
}

} // verus!
