use rusthonian::codec::hex_val;
use rusthonian::{
    format_braced, format_hyphenated, format_simple, format_urn, parse, Error, Uuid,
};

const DNS_TEXT: &str = "6ba7b810-9dad-11d1-80b4-00c04fd430c8";

#[test]
fn braced_and_urn_forms_give_the_dns_namespace() {
    assert_eq!(parse("{6ba7b810-9dad-11d1-80b4-00c04fd430c8}"), Ok(Uuid::namespace_dns()));
    assert_eq!(
        parse("urn:uuid:6BA7B810-9DAD-11D1-80B4-00C04FD430C8"),
        Ok(Uuid::namespace_dns())
    );
}

#[test]
fn every_accepted_shape_parses() {
    let dns = Ok(Uuid::namespace_dns());
    assert_eq!(parse(DNS_TEXT), dns);
    assert_eq!(parse("6BA7B810-9DAD-11D1-80B4-00C04FD430C8"), dns);
    assert_eq!(parse("6bA7b810-9Dad-11d1-80B4-00c04Fd430C8"), dns);
    assert_eq!(parse("6ba7b8109dad11d180b400c04fd430c8"), dns);
    assert_eq!(parse("{6ba7b8109dad11d180b400c04fd430c8}"), dns);
    assert_eq!(parse("URN:UUID:6ba7b810-9dad-11d1-80b4-00c04fd430c8"), dns);
    assert_eq!(parse("Urn:Uuid:6ba7b8109dad11d180b400c04fd430c8"), dns);
}

#[test]
fn the_four_forms_are_written_in_lowercase() {
    let u = Uuid::from_u128(0x6BA7B810_9DAD_11D1_80B4_00C04FD430C8);
    assert_eq!(format_hyphenated(&u), DNS_TEXT);
    assert_eq!(format_simple(&u), "6ba7b8109dad11d180b400c04fd430c8");
    assert_eq!(format_braced(&u), "{6ba7b810-9dad-11d1-80b4-00c04fd430c8}");
    assert_eq!(format_urn(&u), "urn:uuid:6ba7b810-9dad-11d1-80b4-00c04fd430c8");
    assert_eq!(format_hyphenated(&Uuid::nil()), "00000000-0000-0000-0000-000000000000");
    assert_eq!(format_hyphenated(&Uuid::max()), "ffffffff-ffff-ffff-ffff-ffffffffffff");
    assert_eq!(
        format_hyphenated(&Uuid::from_u128(0x0123_4567_89ab_cdef_0123_4567_89ab_cdef)),
        "01234567-89ab-cdef-0123-456789abcdef"
    );
}

#[test]
fn canonical_text_round_trips_in_lowercase() {
    for s in [
        DNS_TEXT,
        "6BA7B810-9DAD-11D1-80B4-00C04FD430C8",
        "00000000-0000-0000-0000-000000000000",
        "FFFFFFFF-ffff-FFFF-ffff-FFFFFFFFFFFF",
        "01234567-89aB-cDeF-0123-456789AbCdEf",
    ] {
        let u = parse(s).unwrap();
        assert_eq!(format_hyphenated(&u), s.to_lowercase());
    }
}

#[test]
fn written_text_reads_back() {
    for x in [0u128, 1, u128::MAX, 0x0123_4567_89ab_cdef_fedc_ba98_7654_3210] {
        let u = Uuid::from_u128(x);
        assert_eq!(parse(&format_hyphenated(&u)), Ok(u));
        assert_eq!(parse(&format_simple(&u)), Ok(u));
        assert_eq!(parse(&format_braced(&u)), Ok(u));
        assert_eq!(parse(&format_urn(&u)), Ok(u));
    }
}

#[test]
fn wrong_length_is_refused_with_both_lengths() {
    assert_eq!(parse(""), Err(Error::InvalidLength { expected: 36, actual: 0 }));
    assert_eq!(parse("abc"), Err(Error::InvalidLength { expected: 36, actual: 3 }));
    assert_eq!(
        parse("6ba7b810-9dad-11d1-80b4-00c04fd430c"),
        Err(Error::InvalidLength { expected: 36, actual: 35 })
    );
    assert_eq!(
        parse("6ba7b810-9dad-11d1-80b4-00c04fd430c8a"),
        Err(Error::InvalidLength { expected: 36, actual: 37 })
    );
    assert_eq!(parse("{abc}"), Err(Error::InvalidLength { expected: 38, actual: 5 }));
    assert_eq!(parse("urn:uuid:abc"), Err(Error::InvalidLength { expected: 45, actual: 12 }));
    assert_eq!(
        parse("{6ba7b810-9dad-11d1-80b4-00c04fd430c8"),
        Err(Error::InvalidLength { expected: 36, actual: 37 })
    );
}

#[test]
fn white_space_is_not_trimmed() {
    assert_eq!(
        parse(" 6ba7b810-9dad-11d1-80b4-00c04fd430c8"),
        Err(Error::InvalidLength { expected: 36, actual: 37 })
    );
    assert_eq!(
        parse("6ba7b810-9dad-11d1-80b4-00c04fd430c8\n"),
        Err(Error::InvalidLength { expected: 36, actual: 37 })
    );
    assert_eq!(
        parse(" ba7b810-9dad-11d1-80b4-00c04fd430c8"),
        Err(Error::InvalidCharacter { position: 0 })
    );
}

#[test]
fn a_character_that_is_no_hex_digit_is_refused_with_its_index() {
    assert_eq!(
        parse("6ba7b810-9dad-11d1-80b4-00c04fd430cg"),
        Err(Error::InvalidCharacter { position: 35 })
    );
    assert_eq!(
        parse("6ba7x810-9dad-11d1-80b4-00c04fd430cg"),
        Err(Error::InvalidCharacter { position: 4 })
    );
    assert_eq!(
        parse("6ba7b8109dad11d180b400c04fd430cz"),
        Err(Error::InvalidCharacter { position: 31 })
    );
    assert_eq!(
        parse("6ba7b810-dad11d180b400c04fd430c8"),
        Err(Error::InvalidCharacter { position: 8 })
    );
    assert_eq!(
        parse("{6ba7b810-9dad-11d1-80b4-00c04fd430c!}"),
        Err(Error::InvalidCharacter { position: 36 })
    );
    assert_eq!(
        parse("urn:uuid:6ba7b810-9dad-11d1-80b4-00c04fd430\u{e9}8"),
        Err(Error::InvalidCharacter { position: 43 })
    );
}

#[test]
fn a_misplaced_hyphen_is_refused_with_its_index() {
    assert_eq!(
        parse("6ba7b8109-dad-11d1-80b4-00c04fd430c8"),
        Err(Error::InvalidGroupPosition { position: 8 })
    );
    assert_eq!(
        parse("6ba7-b810-9dad-11d1-80b400c04fd430c8"),
        Err(Error::InvalidGroupPosition { position: 4 })
    );
    assert_eq!(
        parse("6ba7b810-9dad-11d1-80b4a00c04fd430c8"),
        Err(Error::InvalidGroupPosition { position: 23 })
    );
    assert_eq!(
        parse("{6ba7b810-9dad-11d1080b4-00c04fd430c8}"),
        Err(Error::InvalidGroupPosition { position: 19 })
    );
    assert_eq!(
        parse("urn:uuid:6ba7b810-9dad+11d1-80b4-00c04fd430c8"),
        Err(Error::InvalidGroupPosition { position: 22 })
    );
}

#[test]
fn hex_digits_of_either_case_have_values() {
    assert_eq!(hex_val('0'), Some(0));
    assert_eq!(hex_val('9'), Some(9));
    assert_eq!(hex_val('a'), Some(10));
    assert_eq!(hex_val('f'), Some(15));
    assert_eq!(hex_val('A'), Some(10));
    assert_eq!(hex_val('F'), Some(15));
    assert_eq!(hex_val('g'), None);
    assert_eq!(hex_val('G'), None);
    assert_eq!(hex_val('/'), None);
    assert_eq!(hex_val(':'), None);
    assert_eq!(hex_val('@'), None);
    assert_eq!(hex_val('`'), None);
    assert_eq!(hex_val('-'), None);
}
