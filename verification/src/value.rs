//! The UUID value: 128 bits, with byte 0 the most significant.

use vstd::prelude::*;
use crate::error::Error;

verus! {

/// The layout family of a UUID, read from the top bits of byte 8.
#[derive(Clone, Copy, Debug, PartialEq, Eq, Structural)]
pub enum Variant {
    /// `0xxx`: reserved for NCS backward compatibility.
    Ncs,
    /// `10xx`: the layout of RFC 4122 and RFC 9562.
    Rfc4122,
    /// `110x`: reserved for Microsoft.
    Microsoft,
    /// `111x`: reserved for the future.
    Future,
}

/// Byte `i` (0 is the most significant) of a 128-bit value.
pub open spec fn be_byte(v: u128, i: int) -> u8 {
    if i == 0 { ((v >> 120) & 0xff) as u8 }
    else if i == 1 { ((v >> 112) & 0xff) as u8 }
    else if i == 2 { ((v >> 104) & 0xff) as u8 }
    else if i == 3 { ((v >> 96) & 0xff) as u8 }
    else if i == 4 { ((v >> 88) & 0xff) as u8 }
    else if i == 5 { ((v >> 80) & 0xff) as u8 }
    else if i == 6 { ((v >> 72) & 0xff) as u8 }
    else if i == 7 { ((v >> 64) & 0xff) as u8 }
    else if i == 8 { ((v >> 56) & 0xff) as u8 }
    else if i == 9 { ((v >> 48) & 0xff) as u8 }
    else if i == 10 { ((v >> 40) & 0xff) as u8 }
    else if i == 11 { ((v >> 32) & 0xff) as u8 }
    else if i == 12 { ((v >> 24) & 0xff) as u8 }
    else if i == 13 { ((v >> 16) & 0xff) as u8 }
    else if i == 14 { ((v >> 8) & 0xff) as u8 }
    else { (v & 0xff) as u8 }
}

/// The sixteen bytes of a 128-bit value in network order.
pub open spec fn be_bytes(v: u128) -> Seq<u8> {
    Seq::new(16, |i: int| be_byte(v, i))
}

/// The 128-bit value whose network-order bytes are the first sixteen of `b`.
pub open spec fn from_be_bytes(b: Seq<u8>) -> u128 {
    (b[0] as u128) << 120 | (b[1] as u128) << 112 | (b[2] as u128) << 104 | (b[3] as u128) << 96
        | (b[4] as u128) << 88 | (b[5] as u128) << 80 | (b[6] as u128) << 72 | (b[7] as u128) << 64
        | (b[8] as u128) << 56 | (b[9] as u128) << 48 | (b[10] as u128) << 40
            | (b[11] as u128) << 32
        | (b[12] as u128) << 24 | (b[13] as u128) << 16 | (b[14] as u128) << 8 | (b[15] as u128)
}

/// The mixed-endian rearrangement: the first three fields (4, 2 and 2 bytes)
/// are reversed byte by byte, the last eight bytes stay where they are.
/// Applying it twice gives the input back.
pub open spec fn swap_fields(b: Seq<u8>) -> Seq<u8> {
    seq![
        b[3], b[2], b[1], b[0], b[5], b[4], b[7], b[6],
        b[8], b[9], b[10], b[11], b[12], b[13], b[14], b[15],
    ]
}

/// The version nibble: bits 48..51 counted from the most significant bit.
pub open spec fn version_of(v: u128) -> u8 {
    ((v >> 76) & 0xf) as u8
}

/// The variant, decoded from the top bits of byte 8.
pub open spec fn variant_of(v: u128) -> Variant {
    let top = (v >> 56) & 0xff;
    if top & 0x80 == 0 {
        Variant::Ncs
    } else if top & 0x40 == 0 {
        Variant::Rfc4122
    } else if top & 0x20 == 0 {
        Variant::Microsoft
    } else {
        Variant::Future
    }
}

/// `v` with its version nibble replaced by the low four bits of `version`
/// and its variant bits replaced by binary `10`; every other bit is kept.
pub open spec fn stamp(v: u128, version: u8) -> u128 {
    (v & 0xffff_ffff_ffff_0fff_3fff_ffff_ffff_ffff) | (((version & 0xf) as u128) << 76)
        | 0x0000_0000_0000_0000_8000_0000_0000_0000
}

/// Whether `a` comes before `b` when both are read byte by byte from index
/// `i` on: the first byte that differs decides.
pub open spec fn bytes_lt_from(a: Seq<u8>, b: Seq<u8>, i: int) -> bool
    decreases a.len() - i,
{
    if i < 0 || i >= a.len() || i >= b.len() {
        false
    } else if a[i] != b[i] {
        a[i] < b[i]
    } else {
        bytes_lt_from(a, b, i + 1)
    }
}

/// Puts the first sixteen bytes of `b` side by side, the first one highest.
pub(crate) fn join16(b: &[u8]) -> (r: u128)
    requires
        b@.len() >= 16,
    ensures
        r == from_be_bytes(b@),
{
    (b[0] as u128) << 120 | (b[1] as u128) << 112 | (b[2] as u128) << 104 | (b[3] as u128) << 96
        | (b[4] as u128) << 88 | (b[5] as u128) << 80 | (b[6] as u128) << 72 | (b[7] as u128) << 64
        | (b[8] as u128) << 56 | (b[9] as u128) << 48 | (b[10] as u128) << 40
            | (b[11] as u128) << 32
        | (b[12] as u128) << 24 | (b[13] as u128) << 16 | (b[14] as u128) << 8 | (b[15] as u128)
}

/// A universally unique identifier.
#[derive(Clone, Copy, Debug, PartialEq, Eq, Structural, PartialOrd, Ord, Hash)]
pub struct Uuid {
    bits: u128,
}

impl View for Uuid {
    type V = u128;

    closed spec fn view(&self) -> u128 {
        self.bits
    }
}

impl Uuid {
    /// The all-zero UUID.
    pub fn nil() -> (r: Uuid)
        ensures
            r@ == 0,
    {
        Uuid { bits: 0 }
    }

    /// The all-ones UUID.
    pub fn max() -> (r: Uuid)
        ensures
            r@ == u128::MAX,
    {
        Uuid { bits: u128::MAX }
    }

    /// The namespace for fully qualified domain names.
    pub fn namespace_dns() -> (r: Uuid)
        ensures
            r@ == 0x6ba7b810_9dad_11d1_80b4_00c04fd430c8,
    {
        Uuid { bits: 0x6ba7b810_9dad_11d1_80b4_00c04fd430c8 }
    }

    /// The namespace for URLs.
    pub fn namespace_url() -> (r: Uuid)
        ensures
            r@ == 0x6ba7b811_9dad_11d1_80b4_00c04fd430c8,
    {
        Uuid { bits: 0x6ba7b811_9dad_11d1_80b4_00c04fd430c8 }
    }

    /// The namespace for ISO object identifiers.
    pub fn namespace_oid() -> (r: Uuid)
        ensures
            r@ == 0x6ba7b812_9dad_11d1_80b4_00c04fd430c8,
    {
        Uuid { bits: 0x6ba7b812_9dad_11d1_80b4_00c04fd430c8 }
    }

    /// The namespace for X.500 distinguished names.
    pub fn namespace_x500() -> (r: Uuid)
        ensures
            r@ == 0x6ba7b814_9dad_11d1_80b4_00c04fd430c8,
    {
        Uuid { bits: 0x6ba7b814_9dad_11d1_80b4_00c04fd430c8 }
    }

    /// The UUID with the given 128-bit value.
    pub fn from_u128(x: u128) -> (r: Uuid)
        ensures
            r@ == x,
    {
        Uuid { bits: x }
    }

    /// The 128-bit value; byte 0 of the UUID is its most significant byte.
    pub fn to_u128(&self) -> (r: u128)
        ensures
            r == self@,
    {
        self.bits
    }

    /// The sixteen bytes in network order.
    pub fn to_bytes(&self) -> (r: [u8; 16])
        ensures
            r@ == be_bytes(self@),
    {
        let v: u128 = self.bits;
        let r: [u8; 16] = [
            ((v >> 120) & 0xff) as u8, ((v >> 112) & 0xff) as u8,
            ((v >> 104) & 0xff) as u8, ((v >> 96) & 0xff) as u8,
            ((v >> 88) & 0xff) as u8, ((v >> 80) & 0xff) as u8,
            ((v >> 72) & 0xff) as u8, ((v >> 64) & 0xff) as u8,
            ((v >> 56) & 0xff) as u8, ((v >> 48) & 0xff) as u8,
            ((v >> 40) & 0xff) as u8, ((v >> 32) & 0xff) as u8,
            ((v >> 24) & 0xff) as u8, ((v >> 16) & 0xff) as u8,
            ((v >> 8) & 0xff) as u8, (v & 0xff) as u8,
        ];
        assert(r@ =~= be_bytes(v));
        r
    }

    /// The sixteen bytes in the mixed-endian layout: the 4-, 2- and 2-byte
    /// fields little-endian, the remaining eight bytes in network order.
    pub fn to_bytes_le(&self) -> (r: [u8; 16])
        ensures
            r@ == swap_fields(be_bytes(self@)),
    {
        let b: [u8; 16] = self.to_bytes();
        let r: [u8; 16] = [
            b[3], b[2], b[1], b[0], b[5], b[4], b[7], b[6],
            b[8], b[9], b[10], b[11], b[12], b[13], b[14], b[15],
        ];
        assert(r@ =~= swap_fields(be_bytes(self@)));
        r
    }

    /// Reads sixteen bytes in network order. No bit is checked or changed.
    pub fn from_bytes(b: &[u8]) -> (r: Result<Uuid, Error>)
        ensures
            b@.len() == 16 ==> r.is_ok() && r.unwrap()@ == from_be_bytes(b@),
            b@.len() != 16 ==> r == Err::<Uuid, Error>(
                Error::InvalidLength { expected: 16, actual: b.len() },
            ),
    {
        if b.len() != 16 {
            return Err(Error::InvalidLength { expected: 16, actual: b.len() });
        }
        let v: u128 = join16(b);
        Ok(Uuid { bits: v })
    }

    /// Reads sixteen bytes in the mixed-endian layout of `to_bytes_le`.
    pub fn from_bytes_le(b: &[u8]) -> (r: Result<Uuid, Error>)
        ensures
            b@.len() == 16 ==> r.is_ok() && r.unwrap()@ == from_be_bytes(swap_fields(b@)),
            b@.len() != 16 ==> r == Err::<Uuid, Error>(
                Error::InvalidLength { expected: 16, actual: b.len() },
            ),
    {
        if b.len() != 16 {
            return Err(Error::InvalidLength { expected: 16, actual: b.len() });
        }
        let s: [u8; 16] = [
            b[3], b[2], b[1], b[0], b[5], b[4], b[7], b[6],
            b[8], b[9], b[10], b[11], b[12], b[13], b[14], b[15],
        ];
        assert(s@ =~= swap_fields(b@));
        Uuid::from_bytes(&s)
    }

    /// The version nibble, 0 to 15: 0 for the nil UUID, 15 for the max UUID.
    pub fn version(&self) -> (r: u8)
        ensures
            r == version_of(self@),
            r <= 15,
    {
        let v: u128 = self.bits;
        assert(((v >> 76) & 0xf) <= 15) by (bit_vector);
        ((v >> 76) & 0xf) as u8
    }

    /// The variant, decoded from the top bits of byte 8.
    pub fn variant(&self) -> (r: Variant)
        ensures
            r == variant_of(self@),
    {
        let top: u128 = (self.bits >> 56) & 0xff;
        if top & 0x80 == 0 {
            Variant::Ncs
        } else if top & 0x40 == 0 {
            Variant::Rfc4122
        } else if top & 0x20 == 0 {
            Variant::Microsoft
        } else {
            Variant::Future
        }
    }

    /// Whether every bit is zero.
    pub fn is_nil(&self) -> (r: bool)
        ensures
            r == (self@ == 0),
    {
        self.bits == 0
    }

    /// Whether every bit is one.
    pub fn is_max(&self) -> (r: bool)
        ensures
            r == (self@ == u128::MAX),
    {
        self.bits == u128::MAX
    }

    /// Whether the UUID follows the RFC layout: the variant is binary `10`
    /// and the version is one of 1 to 8. The nil and max UUIDs are exempt.
    pub fn validate_rfc(&self) -> (r: bool)
        ensures
            r == (self@ == 0 || self@ == u128::MAX || (variant_of(self@) == Variant::Rfc4122 && 1
                <= version_of(self@) <= 8)),
    {
        if self.is_nil() || self.is_max() {
            return true;
        }
        let ver: u8 = self.version();
        match self.variant() {
            Variant::Rfc4122 => 1 <= ver && ver <= 8,
            _ => false,
        }
    }

    /// Whether `self` and `other` hold the same 128 bits.
    pub fn same(&self, other: &Uuid) -> (r: bool)
        ensures
            r == (self@ == other@),
            r == (*self == *other),
    {
        self.bits == other.bits
    }

    /// Whether `self` sorts before `other`: the order of the 128-bit values,
    /// which is the order of the bytes read from byte 0 on.
    pub fn precedes(&self, other: &Uuid) -> (r: bool)
        ensures
            r == (self@ < other@),
    {
        self.bits < other.bits
    }
}

/// Two UUIDs with the same 128-bit value are the same UUID.
pub proof fn same_value_same_uuid(a: Uuid, b: Uuid)
    requires
        a@ == b@,
    ensures
        a == b,
{
}

/// The value is its sixteen network-order bytes put back side by side.
pub(crate) proof fn lemma_join_of_split(v: u128)
    ensures
        from_be_bytes(be_bytes(v)) == v,
{
    assert((((((v >> 120) & 0xff)) as u8) as u128) << 120
        | (((((v >> 112) & 0xff)) as u8) as u128) << 112
        | (((((v >> 104) & 0xff)) as u8) as u128) << 104
        | (((((v >> 96) & 0xff)) as u8) as u128) << 96
        | (((((v >> 88) & 0xff)) as u8) as u128) << 88
        | (((((v >> 80) & 0xff)) as u8) as u128) << 80
        | (((((v >> 72) & 0xff)) as u8) as u128) << 72
        | (((((v >> 64) & 0xff)) as u8) as u128) << 64
        | (((((v >> 56) & 0xff)) as u8) as u128) << 56
        | (((((v >> 48) & 0xff)) as u8) as u128) << 48
        | (((((v >> 40) & 0xff)) as u8) as u128) << 40
        | (((((v >> 32) & 0xff)) as u8) as u128) << 32
        | (((((v >> 24) & 0xff)) as u8) as u128) << 24
        | (((((v >> 16) & 0xff)) as u8) as u128) << 16
        | (((((v >> 8) & 0xff)) as u8) as u128) << 8 | ((((v & 0xff)) as u8) as u128)
        == v) by (bit_vector);
}

/// Each byte of sixteen bytes put side by side is the byte that was put there.
proof fn lemma_split_of_join(b0: u8, b1: u8, b2: u8, b3: u8, b4: u8, b5: u8, b6: u8, b7: u8,
    b8: u8, b9: u8, b10: u8, b11: u8, b12: u8, b13: u8, b14: u8, b15: u8, x: u128)
    requires
        x == ((b0 as u128) << 120 | (b1 as u128) << 112 | (b2 as u128) << 104
            | (b3 as u128) << 96 | (b4 as u128) << 88 | (b5 as u128) << 80 | (b6 as u128) << 72
            | (b7 as u128) << 64 | (b8 as u128) << 56 | (b9 as u128) << 48 | (b10 as u128) << 40
            | (b11 as u128) << 32 | (b12 as u128) << 24 | (b13 as u128) << 16
            | (b14 as u128) << 8 | (b15 as u128)),
    ensures
        (((x >> 120) & 0xff)) as u8 == b0,
        (((x >> 112) & 0xff)) as u8 == b1,
        (((x >> 104) & 0xff)) as u8 == b2,
        (((x >> 96) & 0xff)) as u8 == b3,
        (((x >> 88) & 0xff)) as u8 == b4,
        (((x >> 80) & 0xff)) as u8 == b5,
        (((x >> 72) & 0xff)) as u8 == b6,
        (((x >> 64) & 0xff)) as u8 == b7,
        (((x >> 56) & 0xff)) as u8 == b8,
        (((x >> 48) & 0xff)) as u8 == b9,
        (((x >> 40) & 0xff)) as u8 == b10,
        (((x >> 32) & 0xff)) as u8 == b11,
        (((x >> 24) & 0xff)) as u8 == b12,
        (((x >> 16) & 0xff)) as u8 == b13,
        (((x >> 8) & 0xff)) as u8 == b14,
        ((x & 0xff)) as u8 == b15,
{
    assert(x == ((b0 as u128) << 120 | (b1 as u128) << 112 | (b2 as u128) << 104
        | (b3 as u128) << 96 | (b4 as u128) << 88 | (b5 as u128) << 80 | (b6 as u128) << 72
        | (b7 as u128) << 64 | (b8 as u128) << 56 | (b9 as u128) << 48 | (b10 as u128) << 40
        | (b11 as u128) << 32 | (b12 as u128) << 24 | (b13 as u128) << 16 | (b14 as u128) << 8
        | (b15 as u128)) ==> (((x >> 120) & 0xff)) as u8 == b0 && (((x >> 112) & 0xff)) as u8
        == b1 && (((x >> 104) & 0xff)) as u8 == b2 && (((x >> 96) & 0xff)) as u8 == b3
        && (((x >> 88) & 0xff)) as u8 == b4 && (((x >> 80) & 0xff)) as u8 == b5
        && (((x >> 72) & 0xff)) as u8 == b6 && (((x >> 64) & 0xff)) as u8 == b7
        && (((x >> 56) & 0xff)) as u8 == b8 && (((x >> 48) & 0xff)) as u8 == b9
        && (((x >> 40) & 0xff)) as u8 == b10 && (((x >> 32) & 0xff)) as u8 == b11
        && (((x >> 24) & 0xff)) as u8 == b12 && (((x >> 16) & 0xff)) as u8 == b13
        && (((x >> 8) & 0xff)) as u8 == b14 && ((x & 0xff)) as u8 == b15) by (bit_vector);
}

/// The order of two 128-bit values is decided by the first byte, from the
/// most significant on, in which they differ.
proof fn lemma_order_by_first_difference(a: u128, b: u128)
    ensures
        a < b <==> (((((a >> 120) & 0xff) as u8) != (((b >> 120) & 0xff) as u8)
            && (((a >> 120) & 0xff) as u8) < (((b >> 120) & 0xff) as u8))
            || ((((a >> 120) & 0xff) as u8) == (((b >> 120) & 0xff) as u8)
                && (((((a >> 112) & 0xff) as u8) != (((b >> 112) & 0xff) as u8)
                && (((a >> 112) & 0xff) as u8) < (((b >> 112) & 0xff) as u8))
            || ((((a >> 112) & 0xff) as u8) == (((b >> 112) & 0xff) as u8)
                && (((((a >> 104) & 0xff) as u8) != (((b >> 104) & 0xff) as u8)
                && (((a >> 104) & 0xff) as u8) < (((b >> 104) & 0xff) as u8))
            || ((((a >> 104) & 0xff) as u8) == (((b >> 104) & 0xff) as u8)
                && (((((a >> 96) & 0xff) as u8) != (((b >> 96) & 0xff) as u8)
                && (((a >> 96) & 0xff) as u8) < (((b >> 96) & 0xff) as u8))
            || ((((a >> 96) & 0xff) as u8) == (((b >> 96) & 0xff) as u8)
                && (((((a >> 88) & 0xff) as u8) != (((b >> 88) & 0xff) as u8)
                && (((a >> 88) & 0xff) as u8) < (((b >> 88) & 0xff) as u8))
            || ((((a >> 88) & 0xff) as u8) == (((b >> 88) & 0xff) as u8)
                && (((((a >> 80) & 0xff) as u8) != (((b >> 80) & 0xff) as u8)
                && (((a >> 80) & 0xff) as u8) < (((b >> 80) & 0xff) as u8))
            || ((((a >> 80) & 0xff) as u8) == (((b >> 80) & 0xff) as u8)
                && (((((a >> 72) & 0xff) as u8) != (((b >> 72) & 0xff) as u8)
                && (((a >> 72) & 0xff) as u8) < (((b >> 72) & 0xff) as u8))
            || ((((a >> 72) & 0xff) as u8) == (((b >> 72) & 0xff) as u8)
                && (((((a >> 64) & 0xff) as u8) != (((b >> 64) & 0xff) as u8)
                && (((a >> 64) & 0xff) as u8) < (((b >> 64) & 0xff) as u8))
            || ((((a >> 64) & 0xff) as u8) == (((b >> 64) & 0xff) as u8)
                && (((((a >> 56) & 0xff) as u8) != (((b >> 56) & 0xff) as u8)
                && (((a >> 56) & 0xff) as u8) < (((b >> 56) & 0xff) as u8))
            || ((((a >> 56) & 0xff) as u8) == (((b >> 56) & 0xff) as u8)
                && (((((a >> 48) & 0xff) as u8) != (((b >> 48) & 0xff) as u8)
                && (((a >> 48) & 0xff) as u8) < (((b >> 48) & 0xff) as u8))
            || ((((a >> 48) & 0xff) as u8) == (((b >> 48) & 0xff) as u8)
                && (((((a >> 40) & 0xff) as u8) != (((b >> 40) & 0xff) as u8)
                && (((a >> 40) & 0xff) as u8) < (((b >> 40) & 0xff) as u8))
            || ((((a >> 40) & 0xff) as u8) == (((b >> 40) & 0xff) as u8)
                && (((((a >> 32) & 0xff) as u8) != (((b >> 32) & 0xff) as u8)
                && (((a >> 32) & 0xff) as u8) < (((b >> 32) & 0xff) as u8))
            || ((((a >> 32) & 0xff) as u8) == (((b >> 32) & 0xff) as u8)
                && (((((a >> 24) & 0xff) as u8) != (((b >> 24) & 0xff) as u8)
                && (((a >> 24) & 0xff) as u8) < (((b >> 24) & 0xff) as u8))
            || ((((a >> 24) & 0xff) as u8) == (((b >> 24) & 0xff) as u8)
                && (((((a >> 16) & 0xff) as u8) != (((b >> 16) & 0xff) as u8)
                && (((a >> 16) & 0xff) as u8) < (((b >> 16) & 0xff) as u8))
            || ((((a >> 16) & 0xff) as u8) == (((b >> 16) & 0xff) as u8)
                && (((((a >> 8) & 0xff) as u8) != (((b >> 8) & 0xff) as u8)
                && (((a >> 8) & 0xff) as u8) < (((b >> 8) & 0xff) as u8))
            || ((((a >> 8) & 0xff) as u8) == (((b >> 8) & 0xff) as u8) && (((a & 0xff) as u8)
                < ((b & 0xff) as u8)))))))))))))))))))))))))))))))),
{
    assert(a < b <==> (((((a >> 120) & 0xff) as u8) != (((b >> 120) & 0xff) as u8)
        && (((a >> 120) & 0xff) as u8) < (((b >> 120) & 0xff) as u8))
            || ((((a >> 120) & 0xff) as u8) == (((b >> 120) & 0xff) as u8)
                && (((((a >> 112) & 0xff) as u8) != (((b >> 112) & 0xff) as u8)
                && (((a >> 112) & 0xff) as u8) < (((b >> 112) & 0xff) as u8))
            || ((((a >> 112) & 0xff) as u8) == (((b >> 112) & 0xff) as u8)
                && (((((a >> 104) & 0xff) as u8) != (((b >> 104) & 0xff) as u8)
                && (((a >> 104) & 0xff) as u8) < (((b >> 104) & 0xff) as u8))
            || ((((a >> 104) & 0xff) as u8) == (((b >> 104) & 0xff) as u8)
                && (((((a >> 96) & 0xff) as u8) != (((b >> 96) & 0xff) as u8)
                && (((a >> 96) & 0xff) as u8) < (((b >> 96) & 0xff) as u8))
            || ((((a >> 96) & 0xff) as u8) == (((b >> 96) & 0xff) as u8)
                && (((((a >> 88) & 0xff) as u8) != (((b >> 88) & 0xff) as u8)
                && (((a >> 88) & 0xff) as u8) < (((b >> 88) & 0xff) as u8))
            || ((((a >> 88) & 0xff) as u8) == (((b >> 88) & 0xff) as u8)
                && (((((a >> 80) & 0xff) as u8) != (((b >> 80) & 0xff) as u8)
                && (((a >> 80) & 0xff) as u8) < (((b >> 80) & 0xff) as u8))
            || ((((a >> 80) & 0xff) as u8) == (((b >> 80) & 0xff) as u8)
                && (((((a >> 72) & 0xff) as u8) != (((b >> 72) & 0xff) as u8)
                && (((a >> 72) & 0xff) as u8) < (((b >> 72) & 0xff) as u8))
            || ((((a >> 72) & 0xff) as u8) == (((b >> 72) & 0xff) as u8)
                && (((((a >> 64) & 0xff) as u8) != (((b >> 64) & 0xff) as u8)
                && (((a >> 64) & 0xff) as u8) < (((b >> 64) & 0xff) as u8))
            || ((((a >> 64) & 0xff) as u8) == (((b >> 64) & 0xff) as u8)
                && (((((a >> 56) & 0xff) as u8) != (((b >> 56) & 0xff) as u8)
                && (((a >> 56) & 0xff) as u8) < (((b >> 56) & 0xff) as u8))
            || ((((a >> 56) & 0xff) as u8) == (((b >> 56) & 0xff) as u8)
                && (((((a >> 48) & 0xff) as u8) != (((b >> 48) & 0xff) as u8)
                && (((a >> 48) & 0xff) as u8) < (((b >> 48) & 0xff) as u8))
            || ((((a >> 48) & 0xff) as u8) == (((b >> 48) & 0xff) as u8)
                && (((((a >> 40) & 0xff) as u8) != (((b >> 40) & 0xff) as u8)
                && (((a >> 40) & 0xff) as u8) < (((b >> 40) & 0xff) as u8))
            || ((((a >> 40) & 0xff) as u8) == (((b >> 40) & 0xff) as u8)
                && (((((a >> 32) & 0xff) as u8) != (((b >> 32) & 0xff) as u8)
                && (((a >> 32) & 0xff) as u8) < (((b >> 32) & 0xff) as u8))
            || ((((a >> 32) & 0xff) as u8) == (((b >> 32) & 0xff) as u8)
                && (((((a >> 24) & 0xff) as u8) != (((b >> 24) & 0xff) as u8)
                && (((a >> 24) & 0xff) as u8) < (((b >> 24) & 0xff) as u8))
            || ((((a >> 24) & 0xff) as u8) == (((b >> 24) & 0xff) as u8)
                && (((((a >> 16) & 0xff) as u8) != (((b >> 16) & 0xff) as u8)
                && (((a >> 16) & 0xff) as u8) < (((b >> 16) & 0xff) as u8))
            || ((((a >> 16) & 0xff) as u8) == (((b >> 16) & 0xff) as u8)
                && (((((a >> 8) & 0xff) as u8) != (((b >> 8) & 0xff) as u8)
                && (((a >> 8) & 0xff) as u8) < (((b >> 8) & 0xff) as u8))
            || ((((a >> 8) & 0xff) as u8) == (((b >> 8) & 0xff) as u8) && (((a & 0xff) as u8)
                < ((b & 0xff) as u8))))))))))))))))))))))))))))))))) by (bit_vector);
}

/// Writing a UUID as sixteen network-order bytes and reading them back gives
/// the same UUID, and so does the passage through its 128-bit value.
pub proof fn bytes_round_trip(u: Uuid)
    ensures
        be_bytes(u@).len() == 16,
        from_be_bytes(be_bytes(u@)) == u@,
{
    lemma_join_of_split(u@);
}

/// Reading sixteen bytes in network order and writing them out again gives
/// the same bytes.
pub proof fn value_round_trip(b: Seq<u8>)
    requires
        b.len() == 16,
    ensures
        be_bytes(from_be_bytes(b)) == b,
{
    lemma_split_of_join(
        b[0], b[1], b[2], b[3], b[4], b[5], b[6], b[7],
        b[8], b[9], b[10], b[11], b[12], b[13], b[14], b[15],
        from_be_bytes(b),
    );
    assert(be_bytes(from_be_bytes(b)) =~= b);
}

/// Writing a UUID in the mixed-endian layout and reading it back gives the
/// same UUID. In that layout each of the first three fields (bytes 0..4,
/// 4..6 and 6..8) is the byte-reverse of the same field in network order,
/// and bytes 8..16 are the same in both.
pub proof fn mixed_endian_round_trip(u: Uuid)
    ensures
        from_be_bytes(swap_fields(swap_fields(be_bytes(u@)))) == u@,
        swap_fields(be_bytes(u@)).subrange(0, 4) == be_bytes(u@).subrange(0, 4).reverse(),
        swap_fields(be_bytes(u@)).subrange(4, 6) == be_bytes(u@).subrange(4, 6).reverse(),
        swap_fields(be_bytes(u@)).subrange(6, 8) == be_bytes(u@).subrange(6, 8).reverse(),
        swap_fields(be_bytes(u@)).subrange(8, 16) == be_bytes(u@).subrange(8, 16),
{
    let b = be_bytes(u@);
    let s = swap_fields(b);
    assert(swap_fields(s) =~= b);
    lemma_join_of_split(u@);
    assert(s.subrange(0, 4) =~= b.subrange(0, 4).reverse());
    assert(s.subrange(4, 6) =~= b.subrange(4, 6).reverse());
    assert(s.subrange(6, 8) =~= b.subrange(6, 8).reverse());
    assert(s.subrange(8, 16) =~= b.subrange(8, 16));
}

/// Reading sixteen bytes in the mixed-endian layout and writing them out
/// again in that layout gives the same bytes.
pub proof fn mixed_endian_value_round_trip(b: Seq<u8>)
    requires
        b.len() == 16,
    ensures
        swap_fields(be_bytes(from_be_bytes(swap_fields(b)))) == b,
{
    let s = swap_fields(b);
    value_round_trip(s);
    assert(swap_fields(s) =~= b);
}

/// The order of UUIDs is the order of their bytes: `a` comes before `b`
/// exactly when, at the first of the sixteen network-order bytes in which
/// they differ, the byte of `a` is the smaller.
pub proof fn order_is_bytewise(a: Uuid, b: Uuid)
    ensures
        a@ < b@ <==> bytes_lt_from(be_bytes(a@), be_bytes(b@), 0),
{
    lemma_order_by_first_difference(a@, b@);
    reveal_with_fuel(bytes_lt_from, 17);
    assert(be_bytes(a@).len() == 16 && be_bytes(b@).len() == 16);
    assert(forall|i: int| 0 <= i < 16 ==> be_bytes(a@)[i] == be_byte(a@, i));
    assert(forall|i: int| 0 <= i < 16 ==> be_bytes(b@)[i] == be_byte(b@, i));
}

} // verus!
