use guid_create::{WinGuid, GUID};

const BYTES: [u8; 16] = [
    0x87, 0x93, 0x5C, 0xDE, 0x70, 0x94, 0x4C, 0x2B, 0xA0, 0xF4, 0xDD, 0x7D, 0x51, 0x2D, 0xD2, 0x61,
];

#[test]
fn components_are_stored_in_big_endian_order() {
    let guid = GUID::build_from_components(0x01020304, 0x0506, 0x0708, &[9, 10, 11, 12, 13, 14, 15, 16]);
    assert_eq!(
        guid,
        GUID::build_from_slice(&[1, 2, 3, 4, 5, 6, 7, 8, 9, 10, 11, 12, 13, 14, 15, 16])
    );
}

#[test]
fn fields_are_read_in_big_endian_order() {
    let guid = GUID::build_from_slice(&[1, 2, 3, 4, 5, 6, 7, 8, 9, 10, 11, 12, 13, 14, 15, 16]);
    assert_eq!(guid.data1(), 0x01020304);
    assert_eq!(guid.data1(), 16_909_060);
    assert_eq!(guid.data2(), 0x0506);
    assert_eq!(guid.data2(), 1286);
    assert_eq!(guid.data3(), 0x0708);
    assert_eq!(guid.data3(), 1800);
    assert_eq!(guid.data4(), [9, 10, 11, 12, 13, 14, 15, 16]);
}

#[test]
fn components_come_back_as_given() {
    let cases: [(u32, u16, u16, [u8; 8]); 5] = [
        (0, 0, 0, [0; 8]),
        (u32::MAX, u16::MAX, u16::MAX, [0xFF; 8]),
        (1, 2, 3, [4, 5, 6, 7, 8, 9, 10, 11]),
        (0x8000_0000, 0x8000, 0x0080, [0x80, 0, 0, 0, 0, 0, 0, 0x01]),
        (0x0000_FF00, 0x00FF, 0xFF00, [0, 0xFF, 0, 0xFF, 0, 0xFF, 0, 0xFF]),
    ];
    for (d1, d2, d3, d4) in cases {
        let guid = GUID::build_from_components(d1, d2, d3, &d4);
        assert_eq!(guid.data1(), d1);
        assert_eq!(guid.data2(), d2);
        assert_eq!(guid.data3(), d3);
        assert_eq!(guid.data4(), d4);
    }
}

#[test]
fn bytes_and_components_give_the_same_guid() {
    let of_bytes = GUID::build_from_slice(&BYTES);
    let of_components = GUID::build_from_components(
        0x87935CDE,
        0x7094,
        0x4C2B,
        &[0xA0, 0xF4, 0xDD, 0x7D, 0x51, 0x2D, 0xD2, 0x61],
    );
    assert_eq!(of_bytes, of_components);
}

#[test]
fn all_constructors_give_the_same_guid() {
    let of_bytes = GUID::build_from_slice(&BYTES);
    let of_components = GUID::build_from_components(
        of_bytes.data1(),
        of_bytes.data2(),
        of_bytes.data3(),
        &of_bytes.data4(),
    );
    let of_text = GUID::parse("87935CDE-7094-4C2B-A0F4-DD7D512DD261").unwrap();
    assert_eq!(of_bytes, of_components);
    assert_eq!(of_bytes, of_text);
    assert_eq!(of_components, of_text);
}

#[test]
fn guids_differ_if_one_byte_differs() {
    let guid = GUID::build_from_slice(&BYTES);
    for i in 0..16 {
        let mut other = BYTES;
        other[i] ^= 1;
        assert_ne!(guid, GUID::build_from_slice(&other));
    }
    assert_eq!(guid, GUID::build_from_slice(&BYTES));
}

#[test]
fn bytes_come_back_as_given() {
    assert_eq!(GUID::build_from_slice(&BYTES).to_bytes(), BYTES);
    let of_components = GUID::build_from_components(0x01020304, 0x0506, 0x0708, &[9; 8]);
    assert_eq!(
        of_components.to_bytes(),
        [1, 2, 3, 4, 5, 6, 7, 8, 9, 9, 9, 9, 9, 9, 9, 9]
    );
}

#[test]
fn default_is_all_zero() {
    assert_eq!(GUID::default(), GUID::build_from_slice(&[0; 16]));
    assert_eq!(GUID::default().to_string(), "00000000-0000-0000-0000-000000000000");
}

#[test]
fn copies_are_equal() {
    let guid = GUID::build_from_slice(&BYTES);
    let copy = guid;
    assert_eq!(guid, copy);
    assert_eq!(guid.clone(), copy);
}

#[test]
fn equal_guids_hash_alike() {
    let mut set = std::collections::HashSet::new();
    set.insert(GUID::build_from_slice(&BYTES));
    set.insert(GUID::parse("87935cde-7094-4c2b-a0f4-dd7d512dd261").unwrap());
    assert_eq!(set.len(), 1);
    set.insert(GUID::default());
    assert_eq!(set.len(), 2);
}

#[test]
fn random_guids_differ() {
    let first = GUID::rand();
    let mut seen_other = false;
    for _ in 0..16 {
        if GUID::rand() != first {
            seen_other = true;
        }
    }
    assert!(seen_other);
}

#[test]
fn windows_record_holds_the_four_fields() {
    let win = GUID::build_from_slice(&BYTES).as_winapi_guid();
    assert_eq!(win.Data1, 0x87935CDE);
    assert_eq!(win.Data2, 0x7094);
    assert_eq!(win.Data3, 0x4C2B);
    assert_eq!(win.Data4, [0xA0, 0xF4, 0xDD, 0x7D, 0x51, 0x2D, 0xD2, 0x61]);
}

#[test]
fn windows_record_comes_back_as_given() {
    let win = WinGuid {
        Data1: 0xDEADBEEF,
        Data2: 0x0102,
        Data3: 0xFFFE,
        Data4: [1, 2, 3, 4, 5, 6, 7, 8],
    };
    let back = GUID::from_winapi_guid(win).as_winapi_guid();
    assert_eq!(back.Data1, 0xDEADBEEF);
    assert_eq!(back.Data2, 0x0102);
    assert_eq!(back.Data3, 0xFFFE);
    assert_eq!(back.Data4, [1, 2, 3, 4, 5, 6, 7, 8]);
    assert_eq!(
        GUID::from_winapi_guid(win).to_string(),
        "DEADBEEF-0102-FFFE-0102-030405060708"
    );
}
