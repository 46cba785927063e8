use uefi::guid::Guid;
use uefi::status::{
    Completion, Error, Status, StatusClass, BUFFER_TOO_SMALL, DEVICE_ERROR, ERROR_BIT,
    NOT_FOUND, SUCCESS, WARN_STALE_DATA,
};

#[test]
fn success_code_is_success() {
    assert_eq!(Status(SUCCESS).classify(), StatusClass::Success);
    let r = Status(SUCCESS).into_with_val(7u32).unwrap();
    assert_eq!(r.status(), Status(SUCCESS));
    assert_eq!(r.unwrap(), 7);
}

#[test]
fn warning_codes_keep_value_and_code() {
    for code in [1usize, 4, 7, 1000, ERROR_BIT - 1] {
        assert_eq!(Status(code).classify(), StatusClass::Warning);
        assert!(Status(code).is_warning());
        let (s, v) = Status(code).into_with_val("data").unwrap().split();
        assert_eq!(s, Status(code));
        assert_eq!(v, "data");
    }
    let c = Status(WARN_STALE_DATA).into_result().unwrap();
    assert_eq!(c.status(), Status(5));
}

#[test]
fn error_codes_carry_no_value() {
    for code in [ERROR_BIT, NOT_FOUND, DEVICE_ERROR, usize::MAX] {
        assert_eq!(Status(code).classify(), StatusClass::Error);
        assert!(Status(code).is_error());
        let r = Status(code).into_with_val(1u8);
        assert_eq!(r.unwrap_err(), Error::Failed(Status(code)));
    }
}

#[test]
fn error_bit_decides_error() {
    for code in [0usize, 1, 7, ERROR_BIT - 1, ERROR_BIT, BUFFER_TOO_SMALL, NOT_FOUND, usize::MAX] {
        assert_eq!(Status(code).is_error(), code & ERROR_BIT != 0);
        assert_eq!(Status(code).into_result().is_err(), code & ERROR_BIT != 0);
    }
    assert_eq!(
        Status(BUFFER_TOO_SMALL).into_result().unwrap_err().status(),
        Status(BUFFER_TOO_SMALL)
    );
}

#[test]
fn buffer_too_small_is_distinguished() {
    let r = Status(BUFFER_TOO_SMALL).into_sized_result(120, ());
    assert_eq!(r.unwrap_err(), Error::BufferTooSmall(120));
    assert_eq!(Error::BufferTooSmall(120).status(), Status(BUFFER_TOO_SMALL));
    let r = Status(NOT_FOUND).into_sized_result(120, ());
    assert_eq!(r.unwrap_err(), Error::Failed(Status(NOT_FOUND)));
    let r = Status(SUCCESS).into_sized_result(120, 3u8).unwrap();
    assert_eq!(r.unwrap(), 3);
}

#[test]
fn completion_new_holds_warning() {
    let c = Completion::new(Status(WARN_STALE_DATA), 9i32);
    assert_eq!(c.status(), Status(WARN_STALE_DATA));
    assert_eq!(c.unwrap(), 9);
}

#[test]
fn guid_canonical_text() {
    let g = Guid::from_values(0x09576e91, 0x6d3f, 0x11d2, 0x8e39, [0x00, 0xa0, 0xc9, 0x69, 0x72, 0x3b]);
    assert_eq!(g.to_string(), "09576e91-6d3f-11d2-8e39-00a0c969723b");
    assert_eq!(g.to_bytes(), b"09576e91-6d3f-11d2-8e39-00a0c969723b".to_vec());
    let g = Guid::from_values(0x5ad34ba, 0x6f02, 0x4214, 0x952e, [0x4d, 0xa0, 0x39, 0x8e, 0x2b, 0xb9]);
    assert_eq!(g.to_string(), "05ad34ba-6f02-4214-952e-4da0398e2bb9");
}

#[test]
fn guid_parse_round_trip() {
    let g = Guid::from_values(0xfedf8e0c, 0xe147, 0x11e3, 0x9903, [0xb8, 0xe8, 0x56, 0x2c, 0xba, 0xfa]);
    assert_eq!(Guid::parse(&g.to_string()), Some(g));
    assert_eq!(Guid::parse("FEDF8E0C-E147-11E3-9903-B8E8562CBAFA"), Some(g));
    assert_eq!(Guid::parse("0379BE4E-D706-437d-B037-EDB82FB772A4"),
        Some(Guid::from_values(0x0379be4e, 0xd706, 0x437d, 0xb037, [0xed, 0xb8, 0x2f, 0xb7, 0x72, 0xa4])));
    let zero = Guid::from_values(0, 0, 0, 0, [0; 6]);
    assert_eq!(zero.to_string(), "00000000-0000-0000-0000-000000000000");
    assert_eq!(Guid::parse(&zero.to_string()), Some(zero));
    let max = Guid::from_values(u32::MAX, u16::MAX, u16::MAX, u16::MAX, [0xff; 6]);
    assert_eq!(Guid::parse(&max.to_string()), Some(max));
}

#[test]
fn guid_parse_rejects_malformed_text() {
    assert_eq!(Guid::parse(""), None);
    assert_eq!(Guid::parse("fedf8e0c-e147-11e3-9903-b8e8562cbaf"), None);
    assert_eq!(Guid::parse("fedf8e0ce147-11e3-9903-b8e8562cbafa0"), None);
    assert_eq!(Guid::parse("fedf8e0g-e147-11e3-9903-b8e8562cbafa"), None);
    assert_eq!(Guid::parse("fedf8e0c-e147-11e3-9903-b8e8562cbafa "), None);
    assert_eq!(Guid::parse("fedf8e0c-e147-11e3-9903-b8e8562cbaf\u{e9}"), None);
}

#[test]
fn guid_equality_is_fieldwise() {
    let a = Guid::from_values(1, 2, 3, 4, [5, 6, 7, 8, 9, 10]);
    let b = Guid::from_values(1, 2, 3, 4, [5, 6, 7, 8, 9, 10]);
    let c = Guid::from_values(1, 2, 3, 4, [5, 6, 7, 8, 9, 11]);
    assert_eq!(a, b);
    assert_ne!(a, c);
}
