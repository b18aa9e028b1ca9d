use rusthonian::{parse, Error, Uuid, Variant};

const DNS: u128 = 0x6ba7b810_9dad_11d1_80b4_00c04fd430c8;

#[test]
fn nil_text_is_nil_with_version_zero_and_ncs_variant() {
    let u = parse("00000000-0000-0000-0000-000000000000").unwrap();
    assert!(u.is_nil());
    assert!(!u.is_max());
    assert_eq!(u.version(), 0);
    assert_eq!(u.variant(), Variant::Ncs);
    assert_eq!(u, Uuid::nil());
}

#[test]
fn max_text_is_max() {
    let u = parse("ffffffff-ffff-ffff-ffff-ffffffffffff").unwrap();
    assert!(u.is_max());
    assert!(!u.is_nil());
    assert_eq!(u.version(), 15);
    assert_eq!(u.variant(), Variant::Future);
    assert_eq!(u, Uuid::max());
}

#[test]
fn namespaces_are_bit_exact() {
    assert_eq!(Uuid::namespace_dns().to_u128(), DNS);
    assert_eq!(Uuid::namespace_url().to_u128(), 0x6ba7b811_9dad_11d1_80b4_00c04fd430c8);
    assert_eq!(Uuid::namespace_oid().to_u128(), 0x6ba7b812_9dad_11d1_80b4_00c04fd430c8);
    assert_eq!(Uuid::namespace_x500().to_u128(), 0x6ba7b814_9dad_11d1_80b4_00c04fd430c8);
    assert_eq!(Uuid::namespace_dns().version(), 1);
    assert_eq!(Uuid::namespace_dns().variant(), Variant::Rfc4122);
}

#[test]
fn bytes_are_network_order() {
    let u = Uuid::from_u128(DNS);
    let expected: [u8; 16] = [
        0x6b, 0xa7, 0xb8, 0x10, 0x9d, 0xad, 0x11, 0xd1, 0x80, 0xb4, 0x00, 0xc0, 0x4f, 0xd4, 0x30,
        0xc8,
    ];
    assert_eq!(u.to_bytes(), expected);
    assert_eq!(Uuid::from_bytes(&expected), Ok(u));
}

#[test]
fn bytes_round_trip_on_samples() {
    for x in [0u128, 1, u128::MAX, DNS, 0x0123_4567_89ab_cdef_fedc_ba98_7654_3210] {
        let u = Uuid::from_u128(x);
        assert_eq!(Uuid::from_bytes(&u.to_bytes()), Ok(u));
        assert_eq!(Uuid::from_u128(u.to_u128()), u);
        assert_eq!(Uuid::from_bytes_le(&u.to_bytes_le()), Ok(u));
    }
}

#[test]
fn mixed_endian_swaps_the_first_three_fields_only() {
    let u = Uuid::from_u128(DNS);
    let be = u.to_bytes();
    let le = u.to_bytes_le();
    let expected: [u8; 16] = [
        0x10, 0xb8, 0xa7, 0x6b, 0xad, 0x9d, 0xd1, 0x11, 0x80, 0xb4, 0x00, 0xc0, 0x4f, 0xd4, 0x30,
        0xc8,
    ];
    assert_eq!(le, expected);
    let mut field0 = be[0..4].to_vec();
    field0.reverse();
    assert_eq!(&le[0..4], &field0[..]);
    let mut field1 = be[4..6].to_vec();
    field1.reverse();
    assert_eq!(&le[4..6], &field1[..]);
    let mut field2 = be[6..8].to_vec();
    field2.reverse();
    assert_eq!(&le[6..8], &field2[..]);
    assert_eq!(&le[8..16], &be[8..16]);
    assert_eq!(Uuid::from_bytes_le(&expected), Ok(u));
}

#[test]
fn wrong_byte_length_is_refused() {
    let short = [0u8; 15];
    let long = [0u8; 17];
    assert_eq!(
        Uuid::from_bytes(&short),
        Err(Error::InvalidLength { expected: 16, actual: 15 })
    );
    assert_eq!(
        Uuid::from_bytes(&long),
        Err(Error::InvalidLength { expected: 16, actual: 17 })
    );
    assert_eq!(
        Uuid::from_bytes_le(&short),
        Err(Error::InvalidLength { expected: 16, actual: 15 })
    );
    assert_eq!(
        Uuid::from_bytes_le(&[]),
        Err(Error::InvalidLength { expected: 16, actual: 0 })
    );
}

#[test]
fn variant_follows_the_top_bits_of_byte_eight() {
    let with = |b: u8| Uuid::from_u128((b as u128) << 56).variant();
    assert_eq!(with(0x00), Variant::Ncs);
    assert_eq!(with(0x7f), Variant::Ncs);
    assert_eq!(with(0x80), Variant::Rfc4122);
    assert_eq!(with(0xbf), Variant::Rfc4122);
    assert_eq!(with(0xc0), Variant::Microsoft);
    assert_eq!(with(0xdf), Variant::Microsoft);
    assert_eq!(with(0xe0), Variant::Future);
    assert_eq!(with(0xff), Variant::Future);
}

#[test]
fn version_is_the_nibble_at_bits_48_to_51() {
    for n in 0u8..16 {
        let u = Uuid::from_u128((n as u128) << 76);
        assert_eq!(u.version(), n);
    }
    assert_eq!(Uuid::from_u128(!(0xfu128 << 76)).version(), 0);
}

#[test]
fn validate_rfc_checks_version_and_variant() {
    assert!(Uuid::nil().validate_rfc());
    assert!(Uuid::max().validate_rfc());
    assert!(Uuid::namespace_dns().validate_rfc());
    assert!(!Uuid::from_u128(1).validate_rfc());
    assert!(!Uuid::from_u128(0x9u128 << 76 | 0x8u128 << 60).validate_rfc());
    assert!(Uuid::from_u128(0x8u128 << 76 | 0x8u128 << 60).validate_rfc());
    assert!(!Uuid::from_u128(0x4u128 << 76 | 0xcu128 << 60).validate_rfc());
}

#[test]
fn order_is_the_order_of_the_bytes() {
    let samples = [
        0u128,
        1,
        0xff,
        0x100,
        DNS,
        DNS + 1,
        0x0100_0000_0000_0000_0000_0000_0000_0000,
        0x00ff_ffff_ffff_ffff_ffff_ffff_ffff_ffff,
        u128::MAX,
    ];
    for a in samples {
        for b in samples {
            let (ua, ub) = (Uuid::from_u128(a), Uuid::from_u128(b));
            assert_eq!(ua.precedes(&ub), ua.to_bytes() < ub.to_bytes());
            assert_eq!(ua.precedes(&ub), ua < ub);
            assert_eq!(ua.same(&ub), a == b);
            assert_eq!(ua == ub, a == b);
        }
    }
}
