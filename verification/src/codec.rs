//! Structural byte encoding of `IntegerAttribute`.
//!
//! The attribute is encoded field for field — `min`, `max`, `current` — each
//! field as four little-endian bytes of the value shifted up by `2^31` (the
//! shift keeps the packed word non-negative). Decoding validates the
//! attribute invariant, and yields the original attribute for every encoded
//! one.

use vstd::prelude::*;

use crate::integer_attribute::IntegerAttribute;

verus! {

/// The four little-endian bytes of `x + 2^31`, for `x` in the signed 32-bit
/// range.
pub open spec fn spec_encode_i32(x: int) -> Seq<u8> {
    let u = x + 0x8000_0000;
    seq![
        (u % 256) as u8,
        ((u / 256) % 256) as u8,
        ((u / 65536) % 256) as u8,
        ((u / 16777216) % 256) as u8,
    ]
}

/// The word packed back from four little-endian bytes.
pub open spec fn spec_word(b0: u8, b1: u8, b2: u8, b3: u8) -> int {
    b0 + 256 * b1 + 65536 * b2 + 16777216 * b3
}

/// A word below `2^32` is exactly the packing of its four little-endian
/// digits.
proof fn lemma_word_of_digits(w: u64)
    requires
        w < 0x1_0000_0000,
    ensures
        (w % 256) + 256 * ((w / 256) % 256) + 65536 * ((w / 65536) % 256) + 16777216 * (w
            / 16777216) == w,
        w / 16777216 < 256,
{
    assert((w % 256) + 256 * ((w / 256) % 256) + 65536 * ((w / 65536) % 256) + 16777216
        * (w / 16777216) == w && w / 16777216 < 256) by (bit_vector)
        requires
            w < 0x1_0000_0000,
    ;
}

/// Packing the four digits of `spec_encode_i32(x)` recovers `x + 2^31`.
proof fn lemma_encode_i32_word(x: int)
    requires
        i32::MIN <= x <= i32::MAX,
    ensures
        ({
            let b = spec_encode_i32(x);
            spec_word(b[0], b[1], b[2], b[3]) == x + 0x8000_0000
        }),
{
    let w = (x + 0x8000_0000) as u64;
    lemma_word_of_digits(w);
}

/// Four digits below 256 are recovered from the word they pack.
proof fn lemma_digits_of_word(b0: u8, b1: u8, b2: u8, b3: u8)
    ensures
        ({
            let w = spec_word(b0, b1, b2, b3);
            0 <= w < 0x1_0000_0000 && w % 256 == b0 && (w / 256) % 256 == b1 && (w
                / 65536) % 256 == b2 && (w / 16777216) % 256 == b3
        }),
{
    let v0 = b0 as u64;
    let v1 = b1 as u64;
    let v2 = b2 as u64;
    let v3 = b3 as u64;
    assert(({
        let w = v0 + 256 * v1 + 65536 * v2 + 16777216 * v3;
        w < 0x1_0000_0000 && w % 256 == v0 && (w / 256) % 256 == v1 && (w / 65536) % 256
            == v2 && (w / 16777216) % 256 == v3
    })) by (bit_vector)
        requires
            v0 < 256 && v1 < 256 && v2 < 256 && v3 < 256,
    ;
}

impl IntegerAttribute {
    /// The structural encoding of the attribute: the bytes of `min`, `max`
    /// and `current`, field for field.
    pub open spec fn spec_encode(self) -> Seq<u8> {
        spec_encode_i32(self.min as int) + spec_encode_i32(self.max as int)
            + spec_encode_i32(self.current as int)
    }

    /// Encode the attribute structurally, field for field.
    pub fn encode(&self) -> (r: Vec<u8>)
        ensures
            r@ == self.spec_encode(),
    {
        let mut bytes: Vec<u8> = Vec::new();
        push_i32_bytes(&mut bytes, self.min);
        push_i32_bytes(&mut bytes, self.max);
        push_i32_bytes(&mut bytes, self.current);
        proof {
            assert(bytes@ =~= self.spec_encode());
        }
        bytes
    }

    /// Decode a structural encoding back into an attribute.
    ///
    /// Returns the unique well-formed attribute whose encoding is `bytes`,
    /// or `None` when `bytes` encodes no such attribute; decoding an encoded
    /// attribute therefore yields the original.
    pub fn decode(bytes: &[u8]) -> (r: Option<IntegerAttribute>)
        ensures
            (r matches Some(a) ==> a.wf() && a.spec_encode() == bytes@),
            forall|a: IntegerAttribute| a.wf() && a.spec_encode() == bytes@ ==> r == Some(
                a,
            ),
    {
        if bytes.len() != 12 {
            assert forall|a: IntegerAttribute| a.wf() && a.spec_encode() == bytes@
                implies false by {
                assert(a.spec_encode().len() == 12);
            }
            return Option::None;
        }
        let min_v = read_i32_bytes(bytes, 0);
        let max_v = read_i32_bytes(bytes, 4);
        let cur_v = read_i32_bytes(bytes, 8);
        proof {
            assert forall|a: IntegerAttribute| a.wf() && a.spec_encode() == bytes@
                implies a.min == min_v && a.max == max_v && a.current == cur_v by {
                lemma_field_determined(a.min, bytes@, 0);
                lemma_field_determined(a.max, bytes@, 4);
                lemma_field_determined(a.current, bytes@, 8);
            }
        }
        if min_v <= max_v && min_v <= cur_v && cur_v <= max_v {
            let a = IntegerAttribute { min: min_v, max: max_v, current: cur_v };
            proof {
                lemma_encode_i32_word(min_v as int);
                lemma_encode_i32_word(max_v as int);
                lemma_encode_i32_word(cur_v as int);
                lemma_digits_of_word(bytes@[0], bytes@[1], bytes@[2], bytes@[3]);
                lemma_digits_of_word(bytes@[4], bytes@[5], bytes@[6], bytes@[7]);
                lemma_digits_of_word(bytes@[8], bytes@[9], bytes@[10], bytes@[11]);
                assert(a.spec_encode() =~= bytes@);
            }
            Some(a)
        } else {
            Option::None
        }
    }
}

/// An encoded field pins the field: if four bytes of `s` starting at `off`
/// are the encoding of `x`, then `x` is the word they pack, shifted down.
proof fn lemma_field_determined(x: i32, s: Seq<u8>, off: int)
    requires
        0 <= off,
        off + 4 <= s.len(),
        forall|i: int| 0 <= i < 4 ==> s[off + i] == spec_encode_i32(x as int)[i],
    ensures
        x == spec_word(s[off], s[off + 1], s[off + 2], s[off + 3]) - 0x8000_0000,
{
    lemma_encode_i32_word(x as int);
}

/// The structural encoding is injective: two attributes with the same
/// encoding are the same attribute. Together with `decode`'s contract this
/// gives the round trip: decoding the encoding of an attribute yields that
/// attribute.
pub proof fn lemma_attribute_encoding_injective(a1: IntegerAttribute, a2: IntegerAttribute)
    requires
        a1.spec_encode() == a2.spec_encode(),
    ensures
        a1 == a2,
{
    let s = a1.spec_encode();
    lemma_field_determined(a1.min, s, 0);
    lemma_field_determined(a2.min, s, 0);
    lemma_field_determined(a1.max, s, 4);
    lemma_field_determined(a2.max, s, 4);
    lemma_field_determined(a1.current, s, 8);
    lemma_field_determined(a2.current, s, 8);
}

/// Append the four little-endian bytes of `v + 2^31` to `out`.
fn push_i32_bytes(out: &mut Vec<u8>, v: i32)
    ensures
        final(out)@ == old(out)@ + spec_encode_i32(v as int),
{
    let w: u32 = ((v as i64) + 0x8000_0000i64) as u32;
    out.push((w % 256) as u8);
    out.push(((w / 256) % 256) as u8);
    out.push(((w / 65536) % 256) as u8);
    out.push(((w / 16777216) % 256) as u8);
    proof {
        assert(out@ =~= old(out)@ + spec_encode_i32(v as int));
    }
}

/// Read the field encoded in the four bytes of `bytes` starting at `off`.
fn read_i32_bytes(bytes: &[u8], off: usize) -> (r: i32)
    requires
        off + 4 <= bytes@.len(),
    ensures
        r == spec_word(
            bytes@[off as int],
            bytes@[off as int + 1],
            bytes@[off as int + 2],
            bytes@[off as int + 3],
        ) - 0x8000_0000,
{
    let b0 = bytes[off] as u32;
    let b1 = bytes[off + 1] as u32;
    let b2 = bytes[off + 2] as u32;
    let b3 = bytes[off + 3] as u32;
    let w: u32 = b0 + 256 * b1 + 65536 * b2 + 16777216 * b3;
    proof {
        lemma_digits_of_word(
            bytes@[off as int],
            bytes@[off as int + 1],
            bytes@[off as int + 2],
            bytes@[off as int + 3],
        );
    }
    ((w as i64) - 0x8000_0000i64) as i32
}

} // verus!
