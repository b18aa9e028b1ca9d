use rusthonian::{
    format_hyphenated, millis_from_unix, new_v3, new_v5, new_v8, parse, ticks_from_unix,
    v3_from_digest, v4_from_random, v5_from_digest, Clock, Entropy, Error, Generator,
    MillisState, TimeState, Uuid, Variant,
};
use std::collections::HashSet;

struct OsEntropy;

impl Entropy for OsEntropy {
    fn fill(&mut self, buf: &mut [u8; 16]) -> bool {
        getrandom::getrandom(buf).is_ok()
    }
}

struct NoEntropy;

impl Entropy for NoEntropy {
    fn fill(&mut self, _buf: &mut [u8; 16]) -> bool {
        false
    }
}

struct FixedEntropy {
    bytes: [u8; 16],
    calls: usize,
}

impl Entropy for FixedEntropy {
    fn fill(&mut self, buf: &mut [u8; 16]) -> bool {
        *buf = self.bytes;
        self.calls += 1;
        true
    }
}

struct FlakyEntropy {
    fail_first: usize,
}

impl Entropy for FlakyEntropy {
    fn fill(&mut self, buf: &mut [u8; 16]) -> bool {
        if self.fail_first > 0 {
            self.fail_first -= 1;
            return false;
        }
        *buf = [0x5a; 16];
        true
    }
}

struct ListClock {
    values: Vec<u64>,
    at: usize,
}

impl ListClock {
    fn take(&mut self) -> u64 {
        let v = self.values[self.at % self.values.len()];
        self.at += 1;
        v
    }
}

impl Clock for ListClock {
    fn gregorian_ticks(&mut self) -> u64 {
        self.take()
    }

    fn unix_millis(&mut self) -> u64 {
        self.take()
    }
}

fn clock_seq_of(u: &Uuid) -> u16 {
    ((u.to_u128() >> 48) & 0x3fff) as u16
}

fn text(u: &Uuid) -> String {
    format_hyphenated(u)
}

#[test]
fn name_based_uuids_of_python_org() {
    let dns = Uuid::namespace_dns();
    assert_eq!(text(&new_v5(&dns, b"python.org")), "886313e1-3b8a-5372-9b90-0c9aee199e5d");
    assert_eq!(text(&new_v3(&dns, b"python.org")), "6fa459ea-ee8a-3ca4-894e-db77e160355e");
}

#[test]
fn name_based_uuids_of_a_url() {
    let url = Uuid::namespace_url();
    assert_eq!(
        text(&new_v5(&url, b"https://example.com/")),
        "dd2c1780-811a-5296-81c5-178a0ef488bc"
    );
    assert_eq!(
        text(&new_v3(&url, b"https://example.com/")),
        "b9dcdff8-af4a-365d-8043-0f8361942709"
    );
}

#[test]
fn name_based_uuids_accept_the_nil_namespace_and_the_empty_name() {
    let u = new_v5(&Uuid::nil(), b"");
    assert_eq!(text(&u), "e129f27c-5103-5c5c-844b-cdf0a15e160d");
    assert_eq!(u.version(), 5);
    assert_eq!(u.variant(), Variant::Rfc4122);
    let w = new_v3(&Uuid::nil(), b"");
    assert_eq!(w.version(), 3);
    assert_eq!(w.variant(), Variant::Rfc4122);
    assert_ne!(new_v5(&Uuid::nil(), b"a"), new_v5(&Uuid::nil(), b"b"));
    assert_ne!(new_v3(&Uuid::nil(), b"a"), new_v3(&Uuid::namespace_dns(), b"a"));
}

#[test]
fn digests_keep_all_bits_but_version_and_variant() {
    let d16 = [0xffu8; 16];
    assert_eq!(text(&v3_from_digest(&d16)), "ffffffff-ffff-3fff-bfff-ffffffffffff");
    let mut d20 = [0u8; 20];
    d20[16] = 0xff;
    d20[0] = 0x12;
    assert_eq!(text(&v5_from_digest(&d20)), "12000000-0000-5000-8000-000000000000");
}

#[test]
fn random_bytes_keep_all_bits_but_version_and_variant() {
    assert_eq!(text(&v4_from_random(&[0xff; 16])), "ffffffff-ffff-4fff-bfff-ffffffffffff");
    assert_eq!(text(&v4_from_random(&[0x00; 16])), "00000000-0000-4000-8000-000000000000");
}

#[test]
fn custom_bytes_keep_all_bits_but_version_and_variant() {
    let u = new_v8(&[0xff; 16]).unwrap();
    assert_eq!(text(&u), "ffffffff-ffff-8fff-bfff-ffffffffffff");
    assert_eq!(u.version(), 8);
    assert_eq!(u.variant(), Variant::Rfc4122);
    let bytes: [u8; 16] = [
        0x01, 0x23, 0x45, 0x67, 0x89, 0xab, 0xcd, 0xef, 0x01, 0x23, 0x45, 0x67, 0x89, 0xab, 0xcd,
        0xef,
    ];
    assert_eq!(text(&new_v8(&bytes).unwrap()), "01234567-89ab-8def-8123-456789abcdef");
    assert_eq!(new_v8(&[0; 15]), Err(Error::InvalidLength { expected: 16, actual: 15 }));
    assert_eq!(new_v8(&[0; 20]), Err(Error::InvalidLength { expected: 16, actual: 20 }));
}

#[test]
fn a_million_random_uuids_are_all_different() {
    let mut g = Generator::new(OsEntropy, ListClock { values: vec![0], at: 0 });
    let mut seen: HashSet<u128> = HashSet::with_capacity(1_000_000);
    for _ in 0..1_000_000 {
        let u = g.new_v4().unwrap();
        assert_eq!(u.version(), 4);
        assert_eq!(u.variant(), Variant::Rfc4122);
        assert!(seen.insert(u.to_u128()));
    }
    assert_eq!(seen.len(), 1_000_000);
}

#[test]
fn a_stalled_clock_advances_the_clock_sequence() {
    let c: u16 = 0x3ffe;
    let now: u64 = 0x01ec_9414_c232_ab00;
    let mut state = TimeState::new(c, [0; 6]);
    let mut issued = Vec::new();
    for _ in 0..4 {
        issued.push(state.next_v1(now, Some([0; 6])));
    }
    let seqs: Vec<u16> = issued.iter().map(clock_seq_of).collect();
    assert_eq!(seqs, vec![0x3ffe, 0x3fff, 0x0000, 0x0001]);
    let clear: u128 = !(0x3fffu128 << 48);
    for u in &issued {
        assert_eq!(u.to_u128() & clear, issued[0].to_u128() & clear);
        assert_eq!(u.version(), 1);
        assert_eq!(u.variant(), Variant::Rfc4122);
        assert_eq!(u.to_u128() & 0xffff_ffff_ffff, 0);
    }
    assert_eq!(text(&issued[0]), "c232ab00-9414-11ec-bffe-000000000000");
}

#[test]
fn a_generator_with_a_stalled_clock_advances_the_clock_sequence() {
    let mut bytes = [0u8; 16];
    bytes[0] = 0xff;
    bytes[1] = 0x05;
    let entropy = FixedEntropy { bytes, calls: 0 };
    let clock = ListClock { values: vec![1000], at: 0 };
    let mut g = Generator::new(entropy, clock);
    let mut seqs = Vec::new();
    let mut stamps = HashSet::new();
    for _ in 0..4 {
        let u = g.new_v1(Some([0; 6])).unwrap();
        seqs.push(clock_seq_of(&u));
        stamps.insert(u.to_u128() >> 64);
    }
    assert_eq!(seqs, vec![0x3f05, 0x3f06, 0x3f07, 0x3f08]);
    assert_eq!(stamps.len(), 1);
    assert_eq!(g.entropy.calls, 1);
}

#[test]
fn a_backwards_clock_advances_the_clock_sequence() {
    let mut state = TimeState::new(7, [1, 2, 3, 4, 5, 6]);
    let a = state.next_v1(500, None);
    let b = state.next_v1(400, None);
    let c = state.next_v1(401, None);
    assert_eq!(clock_seq_of(&a), 7);
    assert_eq!(clock_seq_of(&b), 8);
    assert_eq!(clock_seq_of(&c), 8);
    assert_eq!(state.last, Some(401));
    assert_eq!(a.to_u128() & 0xffff_ffff_ffff, 0x0102_0304_0506);
}

#[test]
fn version_one_packs_the_timestamp_low_bits_first() {
    let mut state = TimeState::new(0x33c8, [0x9f, 0x6b, 0xde, 0xce, 0xd8, 0x46]);
    let u = state.next_v1(0x01ec_9414_c232_ab00, None);
    assert_eq!(text(&u), "c232ab00-9414-11ec-b3c8-9f6bdeced846");
    assert_eq!(u.version(), 1);
}

#[test]
fn version_six_packs_the_timestamp_high_bits_first() {
    let mut state = TimeState::new(0x33c8, [0; 6]);
    let u = state.next_v6(0x01ec_9414_c232_ab00, Some([0x9f, 0x6b, 0xde, 0xce, 0xd8, 0x46]));
    assert_eq!(text(&u), "1ec9414c-232a-6b00-b3c8-9f6bdeced846");
    assert_eq!(u.version(), 6);
    assert_eq!(u.variant(), Variant::Rfc4122);
}

#[test]
fn a_seeded_state_sets_the_multicast_bit_of_its_node() {
    let mut random = [0u8; 16];
    random[0] = 0xff;
    random[1] = 0xff;
    random[2] = 0x10;
    random[7] = 0x22;
    let state = TimeState::seeded(&random);
    assert_eq!(state.clock_seq, 0x3fff);
    assert_eq!(state.node, 0x1100_0000_0022);
    assert_eq!(state.last, None);
    let mut state = state;
    let u = state.next_v1(1, None);
    assert_eq!(u.to_bytes()[10] & 1, 1);
}

#[test]
fn version_six_uuids_of_one_generator_increase() {
    let mut state = TimeState::new(0, [0xff; 6]);
    let mut last = state.next_v6(1, None);
    for now in [1u64, 1, 2, 2, 3, 0x1000, 0x1000_0000, 0x1000_0000, 0x0fff_ffff_ffff_ffff] {
        let next = state.next_v6(now, Some([0; 6]));
        assert!(last.precedes(&next));
        assert!(last.to_bytes() < next.to_bytes());
        last = next;
    }
}

#[test]
fn version_seven_packs_milliseconds_counter_and_random_bits() {
    let random: [u8; 16] = [
        0x0c, 0xc3, 0, 0, 0, 0, 0, 0, 0x98, 0xc4, 0xdc, 0x0c, 0x0c, 0x07, 0x39, 0x8f,
    ];
    let (state, u) = MillisState::next_v7(None, 0x017f_22e2_79b0, &random);
    assert_eq!(text(&u), "017f22e2-79b0-7cc3-98c4-dc0c0c07398f");
    assert_eq!(state, MillisState { ms: 0x017f_22e2_79b0, counter: 0xcc3 });
    assert_eq!(u.version(), 7);
    assert_eq!(u.variant(), Variant::Rfc4122);
}

#[test]
fn version_seven_counts_within_a_millisecond_and_carries() {
    let random = [0xffu8; 16];
    let first = MillisState::advance(None, 10, 0x0ffe);
    assert_eq!(first, MillisState { ms: 10, counter: 0x0ffe });
    let second = MillisState::advance(Some(first), 10, 0x0123);
    assert_eq!(second, MillisState { ms: 10, counter: 0x0fff });
    let third = MillisState::advance(Some(second), 10, 0x0123);
    assert_eq!(third, MillisState { ms: 11, counter: 0 });
    let behind = MillisState::advance(Some(third), 10, 0x0123);
    assert_eq!(behind, MillisState { ms: 11, counter: 1 });
    let moved = MillisState::advance(Some(behind), 12, 0xf123);
    assert_eq!(moved, MillisState { ms: 12, counter: 0x0123 });
    let (s, u) = MillisState::next_v7(Some(moved), 12, &random);
    assert_eq!(s, MillisState { ms: 12, counter: 0x0124 });
    assert_eq!(text(&u), "00000000-000c-7124-bfff-ffffffffffff");
}

#[test]
fn version_seven_uuids_of_one_generator_increase() {
    let clock = ListClock { values: vec![5, 5, 5, 4, 6, 6, 7, 1, 1, 9], at: 0 };
    let mut g = Generator::new(OsEntropy, clock);
    let mut last = g.new_v7().unwrap();
    for _ in 0..5000 {
        let next = g.new_v7().unwrap();
        assert_eq!(next.version(), 7);
        assert_eq!(next.variant(), Variant::Rfc4122);
        assert!(last.precedes(&next));
        last = next;
    }
}

#[test]
fn every_generator_writes_its_version_and_the_rfc_variant() {
    let clock = ListClock { values: vec![3, 2, 2, 10, u64::MAX], at: 0 };
    let mut g = Generator::new(OsEntropy, clock);
    for _ in 0..50 {
        let made = [
            (1, g.new_v1(None).unwrap()),
            (3, new_v3(&Uuid::namespace_oid(), b"1.2.3")),
            (4, g.new_v4().unwrap()),
            (5, new_v5(&Uuid::namespace_x500(), b"cn=a")),
            (6, g.new_v6(None).unwrap()),
            (7, g.new_v7().unwrap()),
            (8, new_v8(&[0xab; 16]).unwrap()),
        ];
        for (n, u) in made {
            assert_eq!(u.version(), n);
            assert_eq!(u.variant(), Variant::Rfc4122);
            assert!(u.validate_rfc());
            assert_eq!(parse(&text(&u)), Ok(u));
        }
    }
}

#[test]
fn entropy_failure_is_reported_and_leaves_the_generator_as_it_was() {
    let mut g = Generator::new(NoEntropy, ListClock { values: vec![1], at: 0 });
    assert_eq!(g.new_v4(), Err(Error::EntropyUnavailable));
    assert_eq!(g.new_v1(None), Err(Error::EntropyUnavailable));
    assert_eq!(g.new_v1(Some([0; 6])), Err(Error::EntropyUnavailable));
    assert_eq!(g.new_v6(None), Err(Error::EntropyUnavailable));
    assert_eq!(g.new_v7(), Err(Error::EntropyUnavailable));
    assert_eq!(g.v1, None);
    assert_eq!(g.v6, None);
    assert_eq!(g.v7, None);
}

#[test]
fn a_generator_recovers_when_entropy_returns() {
    let mut g = Generator::new(FlakyEntropy { fail_first: 2 }, ListClock { values: vec![9], at: 0 });
    assert_eq!(g.new_v6(None), Err(Error::EntropyUnavailable));
    assert_eq!(g.new_v6(None), Err(Error::EntropyUnavailable));
    let u = g.new_v6(None).unwrap();
    assert_eq!(u.version(), 6);
    assert_eq!(clock_seq_of(&u), 0x1a5a);
    assert_eq!(u.to_u128() & 0xffff_ffff_ffff, 0x5b5a_5a5a_5a5a);
    assert!(g.v6.is_some());
    assert!(g.new_v6(None).is_ok());
}

#[test]
fn unix_time_wraps_at_the_width_of_the_timestamp() {
    assert_eq!(ticks_from_unix(u64::MAX, 999_999_999), 0x01b2_1dd2_1381_3fff);
    assert_eq!(millis_from_unix(u64::MAX, 999_999_999), 0xffff_ffff_ffff);
}

#[test]
fn unix_time_becomes_gregorian_ticks_and_milliseconds() {
    assert_eq!(ticks_from_unix(0, 0), 0x01b2_1dd2_1381_4000);
    assert_eq!(ticks_from_unix(0, 99), 0x01b2_1dd2_1381_4000);
    assert_eq!(ticks_from_unix(0, 100), 0x01b2_1dd2_1381_4001);
    assert_eq!(ticks_from_unix(1_645_557_742, 0), 0x01ec_9414_c232_ab00);
    assert_eq!(millis_from_unix(1_645_557_742, 0), 0x017f_22e2_79b0);
    assert_eq!(millis_from_unix(1, 999_999_999), 1999);
    assert_eq!(millis_from_unix(0, 999_999), 0);
}

#[test]
fn three_way_comparison_follows_the_bytes() {
    use_compare(0, 0, std::cmp::Ordering::Equal);
    use_compare(0, 1, std::cmp::Ordering::Less);
    use_compare(1 << 120, u64::MAX as u128, std::cmp::Ordering::Greater);
    use_compare(u128::MAX, u128::MAX - 1, std::cmp::Ordering::Greater);
}

fn use_compare(a: u128, b: u128, expected: std::cmp::Ordering) {
    let (ua, ub) = (Uuid::from_u128(a), Uuid::from_u128(b));
    assert_eq!(ua.compare(&ub), expected);
    assert_eq!(ua.to_bytes().cmp(&ub.to_bytes()), expected);
    assert_eq!(ua.cmp(&ub), expected);
}
