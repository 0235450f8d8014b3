use guid_create::{ParseError, GUID};

const CANONICAL: &str = "87935CDE-7094-4C2B-A0F4-DD7D512DD261";

const BYTES: [u8; 16] = [
    0x87, 0x93, 0x5C, 0xDE, 0x70, 0x94, 0x4C, 0x2B, 0xA0, 0xF4, 0xDD, 0x7D, 0x51, 0x2D, 0xD2, 0x61,
];

fn rejected(text: &str) -> bool {
    matches!(GUID::parse(text), Err(ParseError))
}

#[test]
fn parse_gives_the_bytes_in_order() {
    let guid = GUID::parse("00112233-4455-6677-8899-AABBCCDDEEFF").unwrap();
    assert_eq!(
        guid,
        GUID::build_from_slice(&[
            0x00, 0x11, 0x22, 0x33, 0x44, 0x55, 0x66, 0x77, 0x88, 0x99, 0xAA, 0xBB, 0xCC, 0xDD,
            0xEE, 0xFF,
        ])
    );
}

#[test]
fn parse_takes_the_first_digit_as_the_high_nibble() {
    let guid = GUID::parse("1F000000-0000-0000-0000-0000000000E2").unwrap();
    assert_eq!(guid.data1(), 0x1F00_0000);
    assert_eq!(guid.data4(), [0, 0, 0, 0, 0, 0, 0, 0xE2]);
}

#[test]
fn parse_accepts_lower_and_mixed_case() {
    let lower = GUID::parse("87935cde-7094-4c2b-a0f4-dd7d512dd261").unwrap();
    let mixed = GUID::parse("87935cDe-7094-4C2b-a0F4-Dd7d512dD261").unwrap();
    assert_eq!(lower, GUID::build_from_slice(&BYTES));
    assert_eq!(mixed, GUID::build_from_slice(&BYTES));
}

#[test]
fn parse_accepts_every_digit() {
    let guid = GUID::parse("01234567-89AB-CDEF-abcd-ef0123456789").unwrap();
    assert_eq!(guid.data1(), 0x0123_4567);
    assert_eq!(guid.data2(), 0x89AB);
    assert_eq!(guid.data3(), 0xCDEF);
    assert_eq!(guid.data4(), [0xAB, 0xCD, 0xEF, 0x01, 0x23, 0x45, 0x67, 0x89]);
}

#[test]
fn parse_rejects_the_empty_string() {
    assert!(rejected(""));
}

#[test]
fn parse_rejects_a_wrong_length() {
    assert!(rejected("87935CDE-7094-4C2B-A0F4-DD7D512DD26"));
    assert!(rejected("87935CDE-7094-4C2B-A0F4-DD7D512DD2611"));
    assert!(rejected("87935CDE"));
    assert!(rejected("87935CDE-"));
    assert!(rejected("87935CDE-7094-4C2B-A0F4-"));
    assert!(rejected("8"));
}

#[test]
fn parse_rejects_a_character_that_is_no_digit() {
    assert!(rejected("G7935CDE-7094-4C2B-A0F4-DD7D512DD261"));
    assert!(rejected("87935CDE-7094-4C2B-A0F4-DD7D512DD26g"));
    assert!(rejected("87935CDE-70 4-4C2B-A0F4-DD7D512DD261"));
    assert!(rejected("87935CDE-7094-4C2B-A0F4-DD7D512DD2/1"));
    assert!(rejected("87935CDE-7094-4C2B-A0F4-DD7D512DD2:1"));
    assert!(rejected("87935CDE-7094-4C2B-A0F4-DD7D512DD2@1"));
    assert!(rejected("87935CDE-7094-4C2B-A0F4-DD7D512DD2`1"));
}

#[test]
fn parse_rejects_a_dash_out_of_place() {
    assert!(rejected("87935CD-E7094-4C2B-A0F4-DD7D512DD261"));
    assert!(rejected("87935CDE7-094-4C2B-A0F4-DD7D512DD261"));
    assert!(rejected("87935CDE-7094-4C2B-A0F4DD-7D512DD261"));
    assert!(rejected("87935CDE-7094-4C2B-A0F4-DD7D-512DD26"));
    assert!(rejected("87935CDE+7094-4C2B-A0F4-DD7D512DD261"));
    assert!(rejected("87935CDE_7094_4C2B_A0F4_DD7D512DD261"));
    assert!(rejected("87935CDE70944C2BA0F4DD7D512DD261"));
    assert!(rejected("------------------------------------"));
}

#[test]
fn parse_rejects_anything_before_or_after() {
    assert!(rejected("87935CDE-7094-4C2B-A0F4-DD7D512DD261 "));
    assert!(rejected(" 87935CDE-7094-4C2B-A0F4-DD7D512DD261"));
    assert!(rejected("87935CDE-7094-4C2B-A0F4-DD7D512DD261\n"));
    assert!(rejected("87935CDE-7094-4C2B-A0F4-DD7D512DD261-"));
    assert!(rejected("87935CDE-7094-4C2B-A0F4-DD7D512DD26100"));
    assert!(rejected("{87935CDE-7094-4C2B-A0F4-DD7D512DD261}"));
    assert!(rejected("urn:uuid:87935CDE-7094-4C2B-A0F4-DD7D512DD261"));
}

#[test]
fn parse_rejects_text_outside_ascii() {
    assert!(rejected("８7935CDE-7094-4C2B-A0F4-DD7D512DD261"));
    assert!(rejected("87935CDE–7094-4C2B-A0F4-DD7D512DD261"));
    assert!(rejected("é7935CDE-7094-4C2B-A0F4-DD7D512DD26"));
    assert!(rejected("87935CDE-7094-4C2B-A0F4-DD7D512DD2é"));
    assert!(rejected("日本語"));
}

#[test]
fn parse_rejects_a_very_long_string() {
    let long = "87935CDE-7094-4C2B-A0F4-DD7D512DD261".repeat(10_000);
    assert!(rejected(&long));
    let digits = "A".repeat(1_000_000);
    assert!(rejected(&digits));
}

#[test]
fn to_string_is_zero_padded_upper_case() {
    let guid = GUID::build_from_components(0xA, 0xB, 0xC, &[0, 1, 2, 3, 4, 5, 6, 0xFE]);
    assert_eq!(guid.to_string(), "0000000A-000B-000C-0001-0203040506FE");
    assert_eq!(
        GUID::build_from_slice(&[0; 16]).to_string(),
        "00000000-0000-0000-0000-000000000000"
    );
    assert_eq!(
        GUID::build_from_slice(&[0xFF; 16]).to_string(),
        "FFFFFFFF-FFFF-FFFF-FFFF-FFFFFFFFFFFF"
    );
}

#[test]
fn to_string_has_36_characters() {
    for byte in 0..=255u8 {
        let s = GUID::build_from_slice(&[byte; 16]).to_string();
        assert_eq!(s.len(), 36);
        assert_eq!(s.chars().count(), 36);
    }
}

#[test]
fn to_string_then_parse_gives_the_same_guid() {
    for byte in 0..=255u8 {
        let mut bytes = [byte; 16];
        bytes[3] = byte.wrapping_mul(7);
        bytes[9] = byte.wrapping_add(1);
        bytes[15] = !byte;
        let guid = GUID::build_from_slice(&bytes);
        assert_eq!(GUID::parse(&guid.to_string()).unwrap(), guid);
    }
}

#[test]
fn parse_then_to_string_gives_the_text_in_upper_case() {
    let guid = GUID::parse("87935cde-7094-4c2b-a0f4-dd7d512dd261").unwrap();
    assert_eq!(guid.to_string(), CANONICAL);
    let guid = GUID::parse(CANONICAL).unwrap();
    assert_eq!(guid.to_string(), CANONICAL);
}

#[test]
fn parse_error_describes_the_expected_form() {
    let error = GUID::parse("not a guid").unwrap_err();
    assert_eq!(
        error.to_string(),
        "Malformed GUID, expecting XXXXXXXX-XXXX-XXXX-XXXX-XXXXXXXXXXXX"
    );
}
