//! The generators: one per UUID version, each writing its version nibble and
//! the variant bits `10` over the fields that the version defines.

use vstd::prelude::*;
use crate::error::Error;
use crate::hash::{md5_digest, md5_of, sha1_digest, sha1_of};
use crate::value::{
    be_bytes, from_be_bytes, join16, stamp, variant_of, version_of, Uuid, Variant,
};

verus! {

/// A source of random bytes. `fill` overwrites the buffer and returns
/// `true`, or returns `false` when no randomness can be had; what the buffer
/// holds is then not used.
pub trait Entropy {
    fn fill(&mut self, buf: &mut [u8; 16]) -> bool;
}

/// A source of time.
pub trait Clock {
    /// The count of 100-nanosecond intervals since 1582-10-15T00:00:00Z.
    fn gregorian_ticks(&mut self) -> u64;

    /// The count of milliseconds since 1970-01-01T00:00:00Z.
    fn unix_millis(&mut self) -> u64;
}

/// The count of 100-nanosecond intervals since 1582-10-15T00:00:00Z, the
/// start of the Gregorian calendar, at the moment that lies `seconds` and
/// `nanos` nanoseconds after 1970-01-01T00:00:00Z. The two epochs are
/// `0x01b2_1dd2_1381_4000` intervals apart.
pub open spec fn ticks_at(seconds: u64, nanos: u32) -> int {
    seconds * 10_000_000 + nanos / 100 + 0x01b2_1dd2_1381_4000
}

/// The count of milliseconds since 1970-01-01T00:00:00Z at that moment.
pub open spec fn millis_at(seconds: u64, nanos: u32) -> int {
    seconds * 1000 + nanos / 1_000_000
}

/// The timestamp of versions 1 and 6 for a moment given in Unix time: the
/// tick count since the Gregorian epoch, reduced to 60 bits.
pub fn ticks_from_unix(seconds: u64, nanos: u32) -> (r: u64)
    ensures
        r == ticks_at(seconds, nanos) % 0x1000_0000_0000_0000,
{
    let total: u128 = (seconds as u128) * 10_000_000 + (nanos as u128) / 100
        + 0x01b2_1dd2_1381_4000;
    let low: u128 = total & 0x0fff_ffff_ffff_ffff;
    assert(low == total % 0x1000_0000_0000_0000 && low <= 0x0fff_ffff_ffff_ffff) by (bit_vector)
        requires
            low == total & 0x0fff_ffff_ffff_ffff,
    ;
    low as u64
}

/// The timestamp of version 7 for a moment given in Unix time: the
/// millisecond count, reduced to 48 bits.
pub fn millis_from_unix(seconds: u64, nanos: u32) -> (r: u64)
    ensures
        r == millis_at(seconds, nanos) % 0x1_0000_0000_0000,
{
    let total: u128 = (seconds as u128) * 1000 + (nanos as u128) / 1_000_000;
    let low: u128 = total & 0xffff_ffff_ffff;
    assert(low == total % 0x1_0000_0000_0000 && low <= 0xffff_ffff_ffff) by (bit_vector)
        requires
            low == total & 0xffff_ffff_ffff,
    ;
    low as u64
}

/// The low 60 bits of a tick count: the timestamp of versions 1 and 6.
pub open spec fn ticks60(now: u64) -> u64 {
    now & 0x0fff_ffff_ffff_ffff
}

/// The low 48 bits of a millisecond count: the timestamp of version 7.
pub open spec fn millis48(now: u64) -> u64 {
    now & 0xffff_ffff_ffff
}

/// The 48-bit node number whose six bytes, most significant first, are the
/// first six of `b`.
pub open spec fn node_of(b: Seq<u8>) -> u64 {
    (b[0] as u64) << 40 | (b[1] as u64) << 32 | (b[2] as u64) << 24 | (b[3] as u64) << 16
        | (b[4] as u64) << 8 | (b[5] as u64)
}

/// The node of a UUID: the caller's, where one is given, else the
/// generator's own.
pub open spec fn chosen_node(node: Option<[u8; 6]>, own: u64) -> u64 {
    match node {
        Some(n) => node_of(n@),
        None => own,
    }
}

/// The fields of version 1 side by side, before version and variant are
/// written: the low 32 bits of the timestamp first, then its middle 16 bits,
/// then its high 12 bits, the 14-bit clock sequence and the 48-bit node.
pub open spec fn v1_fields(ts: u128, seq: u128, node: u128) -> u128 {
    (ts & 0xffff_ffff) << 96 | ((ts >> 32) & 0xffff) << 80 | ((ts >> 48) & 0x0fff) << 64 | (seq
        & 0x3fff) << 48 | (node & 0xffff_ffff_ffff)
}

/// The fields of version 6 side by side: the timestamp from its most
/// significant bits down (32, 16 and 12 bits), the clock sequence, the node.
pub open spec fn v6_fields(ts: u128, seq: u128, node: u128) -> u128 {
    ((ts >> 28) & 0xffff_ffff) << 96 | ((ts >> 12) & 0xffff) << 80 | (ts & 0x0fff) << 64 | (seq
        & 0x3fff) << 48 | (node & 0xffff_ffff_ffff)
}

/// The fields of version 7 side by side: 48 bits of milliseconds, the 12-bit
/// counter, and 62 random bits.
pub open spec fn v7_fields(ms: u128, counter: u128, tail: u128) -> u128 {
    (ms & 0xffff_ffff_ffff) << 80 | (counter & 0x0fff) << 64 | (tail & 0x3fff_ffff_ffff_ffff)
}

/// The version 1 UUID of a timestamp, a clock sequence and a node.
pub open spec fn v1_value(ts: u64, seq: u16, node: u64) -> u128 {
    stamp(v1_fields(ts as u128, seq as u128, node as u128), 1)
}

/// The version 6 UUID of a timestamp, a clock sequence and a node.
pub open spec fn v6_value(ts: u64, seq: u16, node: u64) -> u128 {
    stamp(v6_fields(ts as u128, seq as u128, node as u128), 6)
}

/// The version 7 UUID of a millisecond count, a counter and random bits.
pub open spec fn v7_value(ms: u64, counter: u16, tail: u64) -> u128 {
    stamp(v7_fields(ms as u128, counter as u128, tail as u128), 7)
}

/// The random clock sequence that a time-based generator starts with: the
/// low 14 bits of the first two random bytes.
pub open spec fn seed_clock_seq(random: Seq<u8>) -> u16 {
    ((random[0] as u16) << 8 | (random[1] as u16)) & 0x3fff
}

/// The node that a time-based generator makes up for itself: random bytes 2
/// to 7, with the multicast bit (the lowest bit of the first of them) set.
pub open spec fn seed_node(random: Seq<u8>) -> u64 {
    ((random[2] | 1) as u64) << 40 | (random[3] as u64) << 32 | (random[4] as u64) << 24
        | (random[5] as u64) << 16 | (random[6] as u64) << 8 | (random[7] as u64)
}

/// The 12 random bits that the counter of version 7 restarts from.
pub open spec fn seed_counter(random: Seq<u8>) -> u16 {
    ((random[0] as u16) << 8 | (random[1] as u16)) & 0x0fff
}

/// The random bits of the second half of a version 7 UUID: random bytes 8
/// to 15. The top two of these 64 bits give way to the variant.
pub open spec fn seed_tail(random: Seq<u8>) -> u64 {
    (random[8] as u64) << 56 | (random[9] as u64) << 48 | (random[10] as u64) << 40
        | (random[11] as u64) << 32 | (random[12] as u64) << 24 | (random[13] as u64) << 16
        | (random[14] as u64) << 8 | (random[15] as u64)
}

/// What a generator of version 1 or 6 remembers between calls.
#[derive(Clone, Copy, Debug, PartialEq, Eq)]
pub struct TimeState {
    /// The timestamp of the last UUID, if there was one.
    pub last: Option<u64>,
    /// The clock sequence; its low 14 bits count.
    pub clock_seq: u16,
    /// The generator's own node; its low 48 bits count.
    pub node: u64,
}

/// The clock sequence after a call at timestamp `ts`: one more, modulo
/// 2^14, when the clock has not moved past the last timestamp; else the same.
pub open spec fn next_clock_seq(last: Option<u64>, seq: u16, ts: u64) -> u16 {
    let c = seq & 0x3fff;
    if last is Some && ts <= last.unwrap() {
        if c == 0x3fff {
            0u16
        } else {
            (c + 1) as u16
        }
    } else {
        c
    }
}

/// The state after a call at tick count `now`.
pub open spec fn time_step(s: TimeState, now: u64) -> TimeState {
    TimeState {
        last: Some(ticks60(now)),
        clock_seq: next_clock_seq(s.last, s.clock_seq, ticks60(now)),
        node: s.node,
    }
}

/// What a generator of version 7 remembers between calls: the millisecond
/// count and the counter of the last UUID.
#[derive(Clone, Copy, Debug, PartialEq, Eq)]
pub struct MillisState {
    /// The millisecond count last written; its low 48 bits count. It runs
    /// ahead of the clock when the counter has carried.
    pub ms: u64,
    /// The counter last written; its low 12 bits count.
    pub counter: u16,
}

/// The state after a call at millisecond count `now` with fresh counter bits
/// `fresh`. When the clock has moved past the last millisecond written, the
/// state starts over from the clock and the fresh bits. Otherwise the
/// counter goes up by one, and where it was full it returns to zero and the
/// millisecond count goes up by one in its place.
pub open spec fn millis_step(s: Option<MillisState>, now: u64, fresh: u16) -> MillisState {
    let ms = millis48(now);
    if s is Some && ms <= (s.unwrap().ms & 0xffff_ffff_ffff) {
        let prev_ms = s.unwrap().ms & 0xffff_ffff_ffff;
        let prev = s.unwrap().counter & 0x0fff;
        if prev == 0x0fff {
            MillisState { ms: (prev_ms + 1) as u64 & 0xffff_ffff_ffff, counter: 0 }
        } else {
            MillisState { ms: prev_ms, counter: (prev + 1) as u16 }
        }
    } else {
        MillisState { ms, counter: fresh & 0x0fff }
    }
}

fn stamped(v: u128, version: u8) -> (r: u128)
    ensures
        r == stamp(v, version),
{
    (v & 0xffff_ffff_ffff_0fff_3fff_ffff_ffff_ffff) | (((version & 0xf) as u128) << 76)
        | 0x0000_0000_0000_0000_8000_0000_0000_0000
}

/// Writing version and variant leaves a UUID of that version, in the RFC
/// variant, and changes none of the other 122 bits.
pub proof fn stamp_sets_version_and_variant(v: u128, version: u8)
    requires
        version <= 15,
    ensures
        version_of(stamp(v, version)) == version,
        variant_of(stamp(v, version)) == Variant::Rfc4122,
        stamp(v, version) & 0xffff_ffff_ffff_0fff_3fff_ffff_ffff_ffff == v
            & 0xffff_ffff_ffff_0fff_3fff_ffff_ffff_ffff,
{
    let s = stamp(v, version);
    assert(((v & 0xffff_ffff_ffff_0fff_3fff_ffff_ffff_ffff) | (((version & 0xf) as u128) << 76)
        | 0x0000_0000_0000_0000_8000_0000_0000_0000) & 0xffff_ffff_ffff_0fff_3fff_ffff_ffff_ffff
        == v & 0xffff_ffff_ffff_0fff_3fff_ffff_ffff_ffff) by (bit_vector);
    assert(version <= 15 ==> (((((v & 0xffff_ffff_ffff_0fff_3fff_ffff_ffff_ffff) | (((version
        & 0xf) as u128) << 76) | 0x0000_0000_0000_0000_8000_0000_0000_0000) >> 76) & 0xf) as u8)
        == version) by (bit_vector);
    assert(s == ((v & 0xffff_ffff_ffff_0fff_3fff_ffff_ffff_ffff) | (((version & 0xf) as u128)
        << 76) | 0x0000_0000_0000_0000_8000_0000_0000_0000) ==> ((s >> 56) & 0xff) & 0x80 != 0
            && ((s
        >> 56) & 0xff) & 0x40 == 0) by (bit_vector);
}

fn node_number(n: &[u8; 6]) -> (r: u64)
    ensures
        r == node_of(n@),
{
    (n[0] as u64) << 40 | (n[1] as u64) << 32 | (n[2] as u64) << 24 | (n[3] as u64) << 16 | (
    n[4] as u64) << 8 | (n[5] as u64)
}

impl TimeState {
    /// A state that has issued nothing yet, with the given clock sequence
    /// and node.
    pub fn new(clock_seq: u16, node: [u8; 6]) -> (r: TimeState)
        ensures
            r == (TimeState { last: None, clock_seq: clock_seq, node: node_of(node@) }),
    {
        TimeState { last: None, clock_seq, node: node_number(&node) }
    }

    /// A state that has issued nothing yet, with a clock sequence and a node
    /// made from random bytes.
    pub fn seeded(random: &[u8; 16]) -> (r: TimeState)
        ensures
            r == (TimeState {
                last: None,
                clock_seq: seed_clock_seq(random@),
                node: seed_node(random@),
            }),
    {
        let clock_seq: u16 = ((random[0] as u16) << 8 | (random[1] as u16)) & 0x3fff;
        let node: u64 = ((random[2] | 1) as u64) << 40 | (random[3] as u64) << 32 | (
        random[4] as u64) << 24 | (random[5] as u64) << 16 | (random[6] as u64) << 8 | (
        random[7] as u64);
        TimeState { last: None, clock_seq, node }
    }

    /// Takes note of a call at tick count `now`.
    pub fn observe(&mut self, now: u64)
        ensures
            *final(self) == time_step(*old(self), now),
    {
        let ts: u64 = now & 0x0fff_ffff_ffff_ffff;
        let held: u16 = self.clock_seq;
        let c: u16 = held & 0x3fff;
        assert(c <= 0x3fff) by (bit_vector)
            requires
                c == held & 0x3fff,
        ;
        let stalled: bool = match self.last {
            Some(last) => ts <= last,
            None => false,
        };
        if stalled {
            self.clock_seq = if c == 0x3fff { 0 } else { c + 1 };
        } else {
            self.clock_seq = c;
        }
        self.last = Some(ts);
    }

    /// The next version 1 UUID, at tick count `now`, for the caller's node
    /// or else the generator's own.
    pub fn next_v1(&mut self, now: u64, node: Option<[u8; 6]>) -> (r: Uuid)
        ensures
            *final(self) == time_step(*old(self), now),
            r@ == v1_value(
                ticks60(now),
                final(self).clock_seq,
                chosen_node(node, old(self).node),
            ),
            version_of(r@) == 1,
            variant_of(r@) == Variant::Rfc4122,
    {
        self.observe(now);
        let ts: u128 = (now & 0x0fff_ffff_ffff_ffff) as u128;
        let seq: u128 = self.clock_seq as u128;
        let n: u128 = match node {
            Some(bytes) => node_number(&bytes),
            None => self.node,
        } as u128;
        let fields: u128 = (ts & 0xffff_ffff) << 96 | ((ts >> 32) & 0xffff) << 80 | ((ts >> 48)
            & 0x0fff) << 64 | (seq & 0x3fff) << 48 | (n & 0xffff_ffff_ffff);
        proof {
            stamp_sets_version_and_variant(fields, 1);
        }
        Uuid::from_u128(stamped(fields, 1))
    }

    /// The next version 6 UUID, at tick count `now`, for the caller's node
    /// or else the generator's own.
    pub fn next_v6(&mut self, now: u64, node: Option<[u8; 6]>) -> (r: Uuid)
        ensures
            *final(self) == time_step(*old(self), now),
            r@ == v6_value(
                ticks60(now),
                final(self).clock_seq,
                chosen_node(node, old(self).node),
            ),
            version_of(r@) == 6,
            variant_of(r@) == Variant::Rfc4122,
    {
        self.observe(now);
        let ts: u128 = (now & 0x0fff_ffff_ffff_ffff) as u128;
        let seq: u128 = self.clock_seq as u128;
        let n: u128 = match node {
            Some(bytes) => node_number(&bytes),
            None => self.node,
        } as u128;
        let fields: u128 = ((ts >> 28) & 0xffff_ffff) << 96 | ((ts >> 12) & 0xffff) << 80 | (ts
            & 0x0fff) << 64 | (seq & 0x3fff) << 48 | (n & 0xffff_ffff_ffff);
        proof {
            stamp_sets_version_and_variant(fields, 6);
        }
        Uuid::from_u128(stamped(fields, 6))
    }
}

impl MillisState {
    /// The state after a call at millisecond count `now` with fresh counter
    /// bits `fresh`.
    pub fn advance(state: Option<MillisState>, now: u64, fresh: u16) -> (r: MillisState)
        ensures
            r == millis_step(state, now, fresh),
            r.ms <= 0xffff_ffff_ffff,
            r.counter <= 0x0fff,
    {
        let ms: u64 = now & 0xffff_ffff_ffff;
        assert(ms <= 0xffff_ffff_ffff) by (bit_vector)
            requires
                ms == now & 0xffff_ffff_ffff,
        ;
        assert(fresh & 0x0fff <= 0x0fff) by (bit_vector);
        match state {
            Some(s) => {
                let held_ms: u64 = s.ms;
                let held: u16 = s.counter;
                let prev_ms: u64 = held_ms & 0xffff_ffff_ffff;
                let prev: u16 = held & 0x0fff;
                assert(prev_ms <= 0xffff_ffff_ffff && prev <= 0x0fff) by (bit_vector)
                    requires
                        prev_ms == held_ms & 0xffff_ffff_ffff,
                        prev == held & 0x0fff,
                ;
                if ms <= prev_ms {
                    if prev == 0x0fff {
                        let next: u64 = prev_ms + 1;
                        assert(next & 0xffff_ffff_ffff <= 0xffff_ffff_ffff) by (bit_vector);
                        MillisState { ms: next & 0xffff_ffff_ffff, counter: 0 }
                    } else {
                        MillisState { ms: prev_ms, counter: prev + 1 }
                    }
                } else {
                    MillisState { ms, counter: fresh & 0x0fff }
                }
            },
            None => MillisState { ms, counter: fresh & 0x0fff },
        }
    }

    /// The next version 7 UUID, at millisecond count `now`. Random bytes 0
    /// and 1 are where the counter restarts from when the clock has moved
    /// on; random bytes 8 to 15 fill the second half.
    pub fn next_v7(state: Option<MillisState>, now: u64, random: &[u8; 16]) -> (r: (
        MillisState,
        Uuid,
    ))
        ensures
            r.0 == millis_step(state, now, seed_counter(random@)),
            r.1@ == v7_value(r.0.ms, r.0.counter, seed_tail(random@)),
            version_of(r.1@) == 7,
            variant_of(r.1@) == Variant::Rfc4122,
    {
        let fresh: u16 = ((random[0] as u16) << 8 | (random[1] as u16)) & 0x0fff;
        let tail: u64 = (random[8] as u64) << 56 | (random[9] as u64) << 48 | (random[10] as u64)
            << 40 | (random[11] as u64) << 32 | (random[12] as u64) << 24 | (random[13] as u64)
            << 16 | (random[14] as u64) << 8 | (random[15] as u64);
        let next: MillisState = MillisState::advance(state, now, fresh);
        let ms: u128 = next.ms as u128;
        let counter: u128 = next.counter as u128;
        let t: u128 = tail as u128;
        let fields: u128 = (ms & 0xffff_ffff_ffff) << 80 | (counter & 0x0fff) << 64 | (t
            & 0x3fff_ffff_ffff_ffff);
        proof {
            stamp_sets_version_and_variant(fields, 7);
        }
        (next, Uuid::from_u128(stamped(fields, 7)))
    }
}

/// The version 4 UUID made of sixteen random bytes: all of them but the six
/// bits that version and variant take.
pub fn v4_from_random(random: &[u8; 16]) -> (r: Uuid)
    ensures
        r@ == stamp(from_be_bytes(random@), 4),
        version_of(r@) == 4,
        variant_of(r@) == Variant::Rfc4122,
{
    let raw: u128 = join16(random.as_slice());
    proof {
        stamp_sets_version_and_variant(raw, 4);
    }
    Uuid::from_u128(stamped(raw, 4))
}

/// The version 8 UUID of sixteen bytes of the caller's choice: all of them
/// but the six bits that version and variant take. Any other length is
/// refused.
pub fn new_v8(bytes: &[u8]) -> (r: Result<Uuid, Error>)
    ensures
        bytes@.len() == 16 ==> r.is_ok() && r.unwrap()@ == stamp(from_be_bytes(bytes@), 8)
            && version_of(r.unwrap()@) == 8 && variant_of(r.unwrap()@) == Variant::Rfc4122,
        bytes@.len() != 16 ==> r == Err::<Uuid, Error>(
            Error::InvalidLength { expected: 16, actual: bytes.len() },
        ),
{
    if bytes.len() != 16 {
        return Err(Error::InvalidLength { expected: 16, actual: bytes.len() });
    }
    let raw: u128 = join16(bytes);
    proof {
        stamp_sets_version_and_variant(raw, 8);
    }
    Ok(Uuid::from_u128(stamped(raw, 8)))
}

/// The version 3 UUID of an MD5 digest: its sixteen bytes, but for the six
/// bits that version and variant take.
pub fn v3_from_digest(digest: &[u8; 16]) -> (r: Uuid)
    ensures
        r@ == stamp(from_be_bytes(digest@), 3),
        version_of(r@) == 3,
        variant_of(r@) == Variant::Rfc4122,
{
    let raw: u128 = join16(digest.as_slice());
    proof {
        stamp_sets_version_and_variant(raw, 3);
    }
    Uuid::from_u128(stamped(raw, 3))
}

/// The version 5 UUID of a SHA-1 digest: its first sixteen bytes, but for
/// the six bits that version and variant take.
pub fn v5_from_digest(digest: &[u8; 20]) -> (r: Uuid)
    ensures
        r@ == stamp(from_be_bytes(digest@), 5),
        version_of(r@) == 5,
        variant_of(r@) == Variant::Rfc4122,
{
    let raw: u128 = join16(digest.as_slice());
    proof {
        stamp_sets_version_and_variant(raw, 5);
    }
    Uuid::from_u128(stamped(raw, 5))
}

/// The bytes that a name-based UUID is the digest of: the namespace in
/// network order, then the name.
pub open spec fn name_input(namespace: u128, name: Seq<u8>) -> Seq<u8> {
    be_bytes(namespace) + name
}

fn hash_input(namespace: &Uuid, name: &[u8]) -> (r: Vec<u8>)
    ensures
        r@ == name_input(namespace@, name@),
{
    let head: [u8; 16] = namespace.to_bytes();
    let mut data: Vec<u8> = Vec::new();
    data.extend_from_slice(head.as_slice());
    data.extend_from_slice(name);
    assert(data@ =~= name_input(namespace@, name@));
    data
}

/// The version 3 UUID of a name in a namespace: made from the MD5 digest of
/// the namespace's bytes followed by the name.
pub fn new_v3(namespace: &Uuid, name: &[u8]) -> (r: Uuid)
    ensures
        r@ == stamp(from_be_bytes(md5_of(name_input(namespace@, name@))), 3),
        version_of(r@) == 3,
        variant_of(r@) == Variant::Rfc4122,
{
    let data: Vec<u8> = hash_input(namespace, name);
    let digest: [u8; 16] = md5_digest(data.as_slice());
    v3_from_digest(&digest)
}

/// The version 5 UUID of a name in a namespace: made from the SHA-1 digest
/// of the namespace's bytes followed by the name.
pub fn new_v5(namespace: &Uuid, name: &[u8]) -> (r: Uuid)
    ensures
        r@ == stamp(from_be_bytes(sha1_of(name_input(namespace@, name@))), 5),
        version_of(r@) == 5,
        variant_of(r@) == Variant::Rfc4122,
{
    let data: Vec<u8> = hash_input(namespace, name);
    let digest: [u8; 20] = sha1_digest(data.as_slice());
    v5_from_digest(&digest)
}

/// Version 6 values are ordered by timestamp first and clock sequence next.
proof fn lemma_v6_order(t1: u128, q1: u128, n1: u128, t2: u128, q2: u128, n2: u128)
    requires
        t1 <= 0x0fff_ffff_ffff_ffff,
        t2 <= 0x0fff_ffff_ffff_ffff,
        q1 <= 0x3fff,
        q2 <= 0x3fff,
        t1 < t2 || (t1 == t2 && q1 < q2),
    ensures
        stamp(v6_fields(t1, q1, n1), 6) < stamp(v6_fields(t2, q2, n2), 6),
{
    assert(t1 <= 0x0fff_ffff_ffff_ffff && t2 <= 0x0fff_ffff_ffff_ffff && q1 <= 0x3fff
        && q2 <= 0x3fff
        && (t1 < t2 || (t1 == t2 && q1 < q2)) ==> (((((t1 >> 28) & 0xffff_ffff) << 96
            | ((t1 >> 12) & 0xffff) << 80 | (t1 & 0x0fff) << 64 | (q1 & 0x3fff) << 48
            | (n1 & 0xffff_ffff_ffff)) & 0xffff_ffff_ffff_0fff_3fff_ffff_ffff_ffff)
            | (((6u8 & 0xf) as u128) << 76) | 0x0000_0000_0000_0000_8000_0000_0000_0000)
        < (((((t2 >> 28) & 0xffff_ffff) << 96 | ((t2 >> 12) & 0xffff) << 80
            | (t2 & 0x0fff) << 64 | (q2 & 0x3fff) << 48
            | (n2 & 0xffff_ffff_ffff)) & 0xffff_ffff_ffff_0fff_3fff_ffff_ffff_ffff)
            | (((6u8 & 0xf) as u128) << 76)
            | 0x0000_0000_0000_0000_8000_0000_0000_0000)) by (bit_vector);
}

/// Version 7 values are ordered by millisecond count first and counter next.
proof fn lemma_v7_order(m1: u128, c1: u128, r1: u128, m2: u128, c2: u128, r2: u128)
    requires
        m1 <= 0xffff_ffff_ffff,
        m2 <= 0xffff_ffff_ffff,
        c1 <= 0x0fff,
        c2 <= 0x0fff,
        m1 < m2 || (m1 == m2 && c1 < c2),
    ensures
        stamp(v7_fields(m1, c1, r1), 7) < stamp(v7_fields(m2, c2, r2), 7),
{
    assert(m1 <= 0xffff_ffff_ffff && m2 <= 0xffff_ffff_ffff && c1 <= 0x0fff && c2 <= 0x0fff
        && (m1 < m2 || (m1 == m2 && c1 < c2)) ==> ((((m1 & 0xffff_ffff_ffff) << 80
            | (c1 & 0x0fff) << 64
            | (r1 & 0x3fff_ffff_ffff_ffff)) & 0xffff_ffff_ffff_0fff_3fff_ffff_ffff_ffff)
            | (((7u8 & 0xf) as u128) << 76) | 0x0000_0000_0000_0000_8000_0000_0000_0000)
        < ((((m2 & 0xffff_ffff_ffff) << 80 | (c2 & 0x0fff) << 64
            | (r2 & 0x3fff_ffff_ffff_ffff)) & 0xffff_ffff_ffff_0fff_3fff_ffff_ffff_ffff)
            | (((7u8 & 0xf) as u128) << 76)
            | 0x0000_0000_0000_0000_8000_0000_0000_0000)) by (bit_vector);
}

/// Two version 6 UUIDs that one generator issues one after the other, at
/// tick counts `first` and `second`, are in strictly increasing order
/// whenever the clock has moved forward between them, and also when it has
/// stood still, unless the clock sequence was at its last value and went
/// back to zero. The nodes may differ.
pub proof fn v6_issued_in_order(
    s: TimeState,
    first: u64,
    second: u64,
    node_a: u64,
    node_b: u64,
)
    requires
        ticks60(first) < ticks60(second) || (ticks60(first) == ticks60(second) && time_step(
            s,
            first,
        ).clock_seq != 0x3fff),
    ensures
        v6_value(ticks60(first), time_step(s, first).clock_seq, node_a) < v6_value(
            ticks60(second),
            time_step(time_step(s, first), second).clock_seq,
            node_b,
        ),
{
    let s1 = time_step(s, first);
    let s2 = time_step(s1, second);
    let t1 = ticks60(first);
    let t2 = ticks60(second);
    let held = s.clock_seq;
    let q1 = s1.clock_seq;
    assert(first & 0x0fff_ffff_ffff_ffff <= 0x0fff_ffff_ffff_ffff) by (bit_vector);
    assert(second & 0x0fff_ffff_ffff_ffff <= 0x0fff_ffff_ffff_ffff) by (bit_vector);
    assert(held & 0x3fff <= 0x3fff) by (bit_vector);
    assert(q1 <= 0x3fff ==> q1 & 0x3fff == q1) by (bit_vector);
    lemma_v6_order(
        t1 as u128,
        q1 as u128,
        node_a as u128,
        t2 as u128,
        s2.clock_seq as u128,
        node_b as u128,
    );
}

/// Two version 7 UUIDs that one generator issues one after the other are
/// in strictly increasing order, whatever the clock and the random bytes
/// were, unless the 48-bit millisecond count itself ran over: the second
/// call found the clock not past the last count, the counter full, and the
/// count at its last value.
pub proof fn v7_issued_in_order(
    s: Option<MillisState>,
    first: u64,
    fresh_a: u16,
    tail_a: u64,
    second: u64,
    fresh_b: u16,
    tail_b: u64,
)
    requires
        !(millis48(second) <= millis_step(s, first, fresh_a).ms && millis_step(
            s,
            first,
            fresh_a,
        ).counter == 0x0fff && millis_step(s, first, fresh_a).ms == 0xffff_ffff_ffff),
    ensures
        v7_value(
            millis_step(s, first, fresh_a).ms,
            millis_step(s, first, fresh_a).counter,
            tail_a,
        ) < v7_value(
            millis_step(Some(millis_step(s, first, fresh_a)), second, fresh_b).ms,
            millis_step(Some(millis_step(s, first, fresh_a)), second, fresh_b).counter,
            tail_b,
        ),
{
    let s1 = millis_step(s, first, fresh_a);
    let s2 = millis_step(Some(s1), second, fresh_b);
    lemma_millis_step_bounds(s, first, fresh_a);
    lemma_millis_step_bounds(Some(s1), second, fresh_b);
    let m1 = s1.ms;
    let c1 = s1.counter;
    assert(m1 <= 0xffff_ffff_ffff ==> m1 & 0xffff_ffff_ffff == m1) by (bit_vector);
    assert(c1 <= 0x0fff ==> c1 & 0x0fff == c1) by (bit_vector);
    if m1 < 0xffff_ffff_ffff {
        let up = (m1 + 1) as u64;
        assert(up & 0xffff_ffff_ffff == up) by (bit_vector)
            requires
                up <= 0xffff_ffff_ffff,
        ;
    }
    lemma_v7_order(
        m1 as u128,
        c1 as u128,
        tail_a as u128,
        s2.ms as u128,
        s2.counter as u128,
        tail_b as u128,
    );
}

/// Every state after a call holds a 48-bit count and a 12-bit counter.
proof fn lemma_millis_step_bounds(s: Option<MillisState>, now: u64, fresh: u16)
    ensures
        millis_step(s, now, fresh).ms <= 0xffff_ffff_ffff,
        millis_step(s, now, fresh).counter <= 0x0fff,
{
    assert(now & 0xffff_ffff_ffff <= 0xffff_ffff_ffff) by (bit_vector);
    assert(fresh & 0x0fff <= 0x0fff) by (bit_vector);
    if s is Some {
        let held_ms = s.unwrap().ms;
        let held = s.unwrap().counter;
        assert(held_ms & 0xffff_ffff_ffff <= 0xffff_ffff_ffff) by (bit_vector);
        assert(held & 0x0fff <= 0x0fff) by (bit_vector);
        let next = ((held_ms & 0xffff_ffff_ffff) + 1) as u64;
        assert(next & 0xffff_ffff_ffff <= 0xffff_ffff_ffff) by (bit_vector);
    }
}

/// What a call for a version 1 or version 6 UUID does to a generator's
/// state: the state it leaves, and the timestamp, clock sequence and node of
/// the UUID. A generator that has issued nothing yet is first seeded from
/// `random`.
pub open spec fn time_outcome(
    before: Option<TimeState>,
    random: Seq<u8>,
    now: u64,
    node: Option<[u8; 6]>,
) -> (TimeState, u64, u16, u64) {
    let start = match before {
        Some(s) => s,
        None => TimeState {
            last: None,
            clock_seq: seed_clock_seq(random),
            node: seed_node(random),
        },
    };
    let after = time_step(start, now);
    (after, ticks60(now), after.clock_seq, chosen_node(node, start.node))
}

/// A generator that owns its providers and the state of each stateful
/// version. The states are made on the first call that needs them.
pub struct Generator<E, C> {
    pub entropy: E,
    pub clock: C,
    pub v1: Option<TimeState>,
    pub v6: Option<TimeState>,
    pub v7: Option<MillisState>,
}

impl<E: Entropy, C: Clock> Generator<E, C> {
    /// A generator that has issued nothing yet.
    pub fn new(entropy: E, clock: C) -> (r: Self)
        ensures
            r.entropy == entropy,
            r.clock == clock,
            r.v1 is None,
            r.v6 is None,
            r.v7 is None,
    {
        Generator { entropy, clock, v1: None, v6: None, v7: None }
    }

    /// A version 4 UUID from sixteen fresh random bytes. Fails only when the
    /// entropy provider does.
    pub fn new_v4(&mut self) -> (r: Result<Uuid, Error>)
        ensures
            final(self).v1 == old(self).v1,
            final(self).v6 == old(self).v6,
            final(self).v7 == old(self).v7,
            match r {
                Ok(u) => version_of(u@) == 4 && variant_of(u@) == Variant::Rfc4122 && exists|
                    random: [u8; 16],
                | u@ == stamp(#[trigger] from_be_bytes(random@), 4),
                Err(e) => e == Error::EntropyUnavailable,
            },
    {
        let mut random: [u8; 16] = [0u8; 16];
        if !self.entropy.fill(&mut random) {
            return Err(Error::EntropyUnavailable);
        }
        Ok(v4_from_random(&random))
    }

    /// The next version 1 UUID, for the caller's node or else the
    /// generator's own. Only the first call needs entropy, for the clock
    /// sequence and the generator's node: it fails, and leaves the generator
    /// as it was, when the provider does.
    pub fn new_v1(&mut self, node: Option<[u8; 6]>) -> (r: Result<Uuid, Error>)
        ensures
            final(self).v6 == old(self).v6,
            final(self).v7 == old(self).v7,
            old(self).v1 is Some ==> r is Ok,
            match r {
                Ok(u) => version_of(u@) == 1 && variant_of(u@) == Variant::Rfc4122 && exists|
                    random: [u8; 16],
                    now: u64,
                |
                    {
                        let o = #[trigger] time_outcome(old(self).v1, random@, now, node);
                        final(self).v1 == Some(o.0) && u@ == v1_value(o.1, o.2, o.3)
                    },
                Err(e) => e == Error::EntropyUnavailable && final(self).v1 is None,
            },
    {
        let mut random: [u8; 16] = [0u8; 16];
        let mut state: TimeState = match self.v1 {
            Some(s) => s,
            None => {
                if !self.entropy.fill(&mut random) {
                    return Err(Error::EntropyUnavailable);
                }
                TimeState::seeded(&random)
            },
        };
        let now: u64 = self.clock.gregorian_ticks();
        let u: Uuid = state.next_v1(now, node);
        self.v1 = Some(state);
        proof {
            let o = time_outcome(old(self).v1, random@, now, node);
            assert(final(self).v1 == Some(o.0) && u@ == v1_value(o.1, o.2, o.3));
        }
        Ok(u)
    }

    /// The next version 6 UUID, for the caller's node or else the
    /// generator's own. Only the first call needs entropy, for the clock
    /// sequence and the generator's node: it fails, and leaves the generator
    /// as it was, when the provider does.
    pub fn new_v6(&mut self, node: Option<[u8; 6]>) -> (r: Result<Uuid, Error>)
        ensures
            final(self).v1 == old(self).v1,
            final(self).v7 == old(self).v7,
            old(self).v6 is Some ==> r is Ok,
            match r {
                Ok(u) => version_of(u@) == 6 && variant_of(u@) == Variant::Rfc4122 && exists|
                    random: [u8; 16],
                    now: u64,
                |
                    {
                        let o = #[trigger] time_outcome(old(self).v6, random@, now, node);
                        final(self).v6 == Some(o.0) && u@ == v6_value(o.1, o.2, o.3)
                    },
                Err(e) => e == Error::EntropyUnavailable && final(self).v6 is None,
            },
    {
        let mut random: [u8; 16] = [0u8; 16];
        let mut state: TimeState = match self.v6 {
            Some(s) => s,
            None => {
                if !self.entropy.fill(&mut random) {
                    return Err(Error::EntropyUnavailable);
                }
                TimeState::seeded(&random)
            },
        };
        let now: u64 = self.clock.gregorian_ticks();
        let u: Uuid = state.next_v6(now, node);
        self.v6 = Some(state);
        proof {
            let o = time_outcome(old(self).v6, random@, now, node);
            assert(final(self).v6 == Some(o.0) && u@ == v6_value(o.1, o.2, o.3));
        }
        Ok(u)
    }

    /// The next version 7 UUID. Every call asks for fresh random bytes: it
    /// fails, and leaves the generator as it was, when the provider does.
    pub fn new_v7(&mut self) -> (r: Result<Uuid, Error>)
        ensures
            final(self).v1 == old(self).v1,
            final(self).v6 == old(self).v6,
            match r {
                Ok(u) => version_of(u@) == 7 && variant_of(u@) == Variant::Rfc4122 && exists|
                    random: [u8; 16],
                    now: u64,
                |
                    {
                        let s = #[trigger] millis_step(old(self).v7, now, seed_counter(random@));
                        final(self).v7 == Some(s) && u@ == v7_value(
                            s.ms,
                            s.counter,
                            seed_tail(random@),
                        )
                    },
                Err(e) => e == Error::EntropyUnavailable && final(self).v7 == old(self).v7,
            },
    {
        let mut random: [u8; 16] = [0u8; 16];
        if !self.entropy.fill(&mut random) {
            return Err(Error::EntropyUnavailable);
        }
        let now: u64 = self.clock.unix_millis();
        let (next, u) = MillisState::next_v7(self.v7, now, &random);
        self.v7 = Some(next);
        proof {
            let s = millis_step(old(self).v7, now, seed_counter(random@));
            assert(final(self).v7 == Some(s) && u@
                == v7_value(s.ms, s.counter, seed_tail(random@)));
        }
        Ok(u)
    }
}

} // verus!
