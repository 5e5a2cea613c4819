use storage_cache::id::{has_uuid_v4_shape, param_from_parsed, parse_param};
use storage_cache::{EntryId, UuidParseError};

#[test]
fn hyphenated_text_of_known_value() {
    let id = EntryId::from_u128(0xa1a2a3a4b1b2c1c2d1d2d3d4d5d6d7d8);
    assert_eq!(id.hyphenated(), "a1a2a3a4-b1b2-c1c2-d1d2-d3d4d5d6d7d8");
}

#[test]
fn hyphenated_text_pads_with_zeros() {
    assert_eq!(EntryId::from_u128(1).hyphenated(), "00000000-0000-0000-0000-000000000001");
    assert_eq!(EntryId::from_u128(0).hyphenated(), "00000000-0000-0000-0000-000000000000");
    assert_eq!(EntryId::from_u128(u128::MAX).hyphenated(), "ffffffff-ffff-ffff-ffff-ffffffffffff");
}

#[test]
fn as_u128_gives_the_value_back() {
    assert_eq!(EntryId::from_u128(42).as_u128(), 42);
}

#[test]
fn parse_reads_hyphenated_text_back() {
    let id = EntryId::from_u128(0x0123456789abcdef0123456789abcdef);
    assert_eq!(EntryId::parse(&id.hyphenated()), Some(id));
}

#[test]
fn parse_takes_upper_case_and_simple_forms() {
    let expected = Some(EntryId::from_u128(0xa1a2a3a4b1b2c1c2d1d2d3d4d5d6d7d8));
    assert_eq!(EntryId::parse("A1A2A3A4-B1B2-C1C2-D1D2-D3D4D5D6D7D8"), expected);
    assert_eq!(EntryId::parse("a1a2a3a4b1b2c1c2d1d2d3d4d5d6d7d8"), expected);
}

#[test]
fn parse_refuses_what_is_no_identifier() {
    assert_eq!(EntryId::parse(""), None);
    assert_eq!(EntryId::parse("hello"), None);
    assert_eq!(EntryId::parse("a1a2a3a4-b1b2-c1c2-d1d2-d3d4d5d6d7dg"), None);
    assert_eq!(EntryId::parse("a1a2a3a4-b1b2-c1c2-d1d2-d3d4d5d6d7d"), None);
}

#[test]
fn from_parsed_wraps_the_value() {
    assert_eq!(EntryId::from_parsed(Some(5)), Some(EntryId::from_u128(5)));
    assert_eq!(EntryId::from_parsed(None), None);
}

#[test]
fn v4_shape_is_recognised() {
    assert!(has_uuid_v4_shape("936da01f-9abd-4d9d-80c7-02af85c822a8"));
    assert!(has_uuid_v4_shape("936DA01F-9ABD-4D9D-A0C7-02AF85C822A8"));
    assert!(has_uuid_v4_shape("936da01f-9abd-4d9d-b0c7-02af85c822a8"));
    assert!(has_uuid_v4_shape("936da01f-9abd-4d9d-90c7-02af85c822a8"));
    assert!(has_uuid_v4_shape("936da01f-9abd-4d9d-B0c7-02af85c822a8"));
}

#[test]
fn v4_shape_wants_version_and_variant() {
    // version digit is not 4
    assert!(!has_uuid_v4_shape("936da01f-9abd-1d9d-80c7-02af85c822a8"));
    // variant digit is not one of 8, 9, a, b
    assert!(!has_uuid_v4_shape("936da01f-9abd-4d9d-c0c7-02af85c822a8"));
    assert!(!has_uuid_v4_shape("936da01f-9abd-4d9d-70c7-02af85c822a8"));
}

#[test]
fn v4_shape_wants_length_hyphens_and_digits() {
    assert!(!has_uuid_v4_shape(""));
    assert!(!has_uuid_v4_shape("936da01f-9abd-4d9d-80c7-02af85c822a"));
    assert!(!has_uuid_v4_shape("936da01f-9abd-4d9d-80c7-02af85c822a8a"));
    assert!(!has_uuid_v4_shape("936da01f-9abd-4d9d-80c7-02af85c822a8\n"));
    assert!(!has_uuid_v4_shape("936da01f09abd-4d9d-80c7-02af85c822a8"));
    assert!(!has_uuid_v4_shape("936da01g-9abd-4d9d-80c7-02af85c822a8"));
    assert!(!has_uuid_v4_shape("936da01f9abd4d9d80c702af85c822a8"));
    assert!(!has_uuid_v4_shape("936da01f-9abd-4d9d-80c7-02af85c822é8"));
}

#[test]
fn parse_param_takes_a_random_identifier() {
    let parsed = parse_param("936da01f-9abd-4d9d-80c7-02af85c822a8");
    assert_eq!(parsed, Ok(EntryId::from_u128(0x936da01f9abd4d9d80c702af85c822a8)));
}

#[test]
fn parse_param_refuses_other_shapes() {
    assert_eq!(parse_param("not-an-id"), Err(UuidParseError::Regex));
    // a well-formed identifier of another version
    assert_eq!(
        parse_param("936da01f-9abd-1d9d-80c7-02af85c822a8"),
        Err(UuidParseError::Regex)
    );
    // the simple form parses, and has not the shape
    assert_eq!(
        parse_param("936da01f9abd4d9d80c702af85c822a8"),
        Err(UuidParseError::Regex)
    );
}

#[test]
fn param_from_parsed_tells_the_three_outcomes() {
    let text = "936da01f-9abd-4d9d-80c7-02af85c822a8";
    assert_eq!(param_from_parsed("nope", Some(1)), Err(UuidParseError::Regex));
    assert_eq!(param_from_parsed(text, None), Err(UuidParseError::Convert));
    assert_eq!(param_from_parsed(text, Some(9)), Ok(EntryId::from_u128(9)));
}

#[test]
fn generated_identifiers_have_the_v4_shape() {
    for _ in 0..50 {
        let id = EntryId::generate();
        let text = id.hyphenated();
        assert!(has_uuid_v4_shape(&text));
        assert_eq!(parse_param(&text), Ok(id));
        assert_eq!((id.as_u128() >> 76) & 0xf, 4);
        assert_eq!((id.as_u128() >> 62) & 0x3, 2);
    }
}

#[test]
fn generated_identifiers_differ() {
    assert_ne!(EntryId::generate(), EntryId::generate());
}
