use hatchery::hex::{Hex, HexError};
use hatchery::hexcolor::{ColorError, HexColor};
use hatchery::sortkey::SortKey;

#[test]
fn hexcolor_accepts_empty_field_as_empty_tag() {
    let c = HexColor::from_value("").unwrap();
    assert_eq!(c.0, "");
}

#[test]
fn hexcolor_accepts_and_keeps_wellformed_value() {
    let c = HexColor::from_value("#a1B2c3").unwrap();
    assert_eq!(c.0, "#a1B2c3");
}

#[test]
fn hexcolor_rejects_wrong_length() {
    let e = HexColor::from_value("#fff").unwrap_err();
    assert!(matches!(e, ColorError::WrongLength));
    assert_eq!(e.message(), "must contain exactly 7 characters");
}

#[test]
fn hexcolor_rejects_missing_hash() {
    let e = HexColor::from_value("a123456").unwrap_err();
    assert!(matches!(e, ColorError::MissingHash));
    assert_eq!(e.message(), "must start with '#'");
}

#[test]
fn hexcolor_rejects_bad_digit() {
    let e = HexColor::from_value("#a1B2cg").unwrap_err();
    assert!(matches!(e, ColorError::BadDigit));
    assert_eq!(e.message(), "all 6 digits must be valid hex");
}

#[test]
fn hexcolor_from_data_keeps_wellformed_bytes() {
    let c = HexColor::from_data(&b"#A1b2C3".to_vec()).unwrap();
    assert_eq!(c.0, "#A1b2C3");
    let c = HexColor::from_data(&Vec::new()).unwrap();
    assert_eq!(c.0, "");
}

#[test]
fn hexcolor_from_data_rejects_like_from_value() {
    assert!(matches!(
        HexColor::from_data(&b"#fff".to_vec()),
        Err(ColorError::WrongLength)
    ));
    assert!(matches!(
        HexColor::from_data(&b"a123456".to_vec()),
        Err(ColorError::MissingHash)
    ));
    assert!(matches!(
        HexColor::from_data(&b"#a1b2cg".to_vec()),
        Err(ColorError::BadDigit)
    ));
}

#[test]
fn hexcolor_default_is_empty() {
    let c: HexColor = Default::default();
    assert_eq!(c.0, "");
}

#[test]
fn hex_validate_accepts_exactly_hash_and_six_hex_digits() {
    assert!(Hex::validate("#123456"));
    assert!(Hex::validate("#a1B2c3"));
    assert!(Hex::validate("#ffffff"));
    assert!(!Hex::validate("#1"));
    assert!(!Hex::validate("color #123456 here"));
    assert!(!Hex::validate("#g12345"));
    assert!(!Hex::validate("1234567"));
    assert!(!Hex::validate("#"));
    assert!(!Hex::validate(""));
}

#[test]
fn hex_new_keeps_accepted_value() {
    let h = Hex::new("#123456").unwrap();
    assert_eq!(h.get(), "#123456");
    assert_eq!(h.inner, "#123456");
}

#[test]
fn hex_new_reports_rejected_value() {
    let e = Hex::new("nope").unwrap_err();
    let HexError::Validation(v) = &e;
    assert_eq!(v, "nope");
    assert_eq!(e.message(), "nope is an invalid CSS hex color code");
}

#[test]
fn hex_set_replaces_only_on_accepted_value() {
    let mut h = Hex::new("#123456").unwrap();
    h.set("#abcdef").unwrap();
    assert_eq!(h.get(), "#abcdef");
    let e = h.set("bad").unwrap_err();
    assert!(matches!(e, HexError::Validation(v) if v == "bad"));
    assert_eq!(h.get(), "#abcdef");
}

#[test]
fn sortkey_accepts_the_four_orders() {
    for k in ["name asc", "name desc", "time asc", "time desc"] {
        let s = SortKey::from_value(k).unwrap();
        assert_eq!(s.0, k);
    }
}

#[test]
fn sortkey_rejects_everything_else() {
    let e = SortKey::from_value("name").unwrap_err();
    assert_eq!(
        e.message(),
        "must be one of [name asc, name desc, time asc, time desc]"
    );
    assert!(SortKey::from_value("likes desc").is_err());
    assert!(SortKey::from_value("").is_err());
}

#[test]
fn sortkey_default_is_name_ascending() {
    let s: SortKey = Default::default();
    assert_eq!(s.0, "name asc");
}
