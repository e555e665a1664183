use cik::{build, parse, validate, CIKError, CIK};
use std::collections::hash_map::DefaultHasher;
use std::hash::{Hash, Hasher};
use std::str::FromStr;

#[test]
fn parse_cik_for_apple() {
    match parse("320193") {
        Ok(cik) => {
            assert_eq!(cik.to_text(), "320193");
            assert_eq!(cik.value(), 320193);
        }
        Err(err) => assert!(false, "Did not expect parsing to fail: {}", err.message()),
    }
}

#[test]
fn build_cik_for_apple() {
    match build(320193) {
        Ok(cik) => {
            assert_eq!(cik.to_text(), "320193");
            assert_eq!(cik.value(), 320193);
        }
        Err(err) => assert!(false, "Did not expect building to fail: {}", err.message()),
    }
}

#[test]
fn reject_empty_string() {
    let res = parse("");
    assert!(res.is_err());
}

#[test]
fn reject_non_digit_string() {
    let res = parse("-1");
    assert!(res.is_err());
}

#[test]
fn reject_zero_string() {
    let res = parse("0");
    assert!(res.is_err());
}

#[test]
fn reject_long_string() {
    let res = parse("10000000000");
    assert!(res.is_err());
}

#[test]
fn reject_zero_value() {
    let res = build(0);
    assert!(res.is_err());
}

#[test]
fn reject_large_value() {
    let res = build(10_000_000_000);
    assert!(res.is_err());
}

#[test]
fn build_accepts_range_bounds() {
    assert_eq!(build(1).unwrap().value(), 1);
    assert_eq!(build(9_999_999_999).unwrap().value(), 9_999_999_999);
    assert!(matches!(
        build(10_000_000_000),
        Err(CIKError::InvalidValue { was: 10_000_000_000 })
    ));
    assert!(matches!(build(0), Err(CIKError::InvalidValue { was: 0 })));
}

#[test]
fn zero_string_fails_with_value_error_not_format_error() {
    assert!(matches!(parse("0"), Err(CIKError::InvalidValue { was: 0 })));
    assert!(matches!(parse("000"), Err(CIKError::InvalidValue { was: 0 })));
}

#[test]
fn eleven_digits_fail_with_length_error_before_numeric_interpretation() {
    assert!(matches!(
        parse("10000000000"),
        Err(CIKError::InvalidLength { was: 11 })
    ));
}

#[test]
fn empty_string_fails_with_length_error() {
    assert!(matches!(parse(""), Err(CIKError::InvalidLength { was: 0 })));
}

#[test]
fn non_digit_strings_fail_with_format_error() {
    match parse("-1") {
        Err(CIKError::InvalidFormat { was }) => assert_eq!(was, "-1"),
        other => panic!("expected a format error, got {:?}", other),
    }
    assert!(matches!(parse("+1"), Err(CIKError::InvalidFormat { .. })));
    assert!(matches!(parse(" 320193 "), Err(CIKError::InvalidFormat { .. })));
    assert!(matches!(parse("12a4"), Err(CIKError::InvalidFormat { .. })));
    assert!(matches!(parse("1.5"), Err(CIKError::InvalidFormat { .. })));
}

#[test]
fn validate_is_a_syntax_only_check() {
    assert!(validate("0"));
    assert!(validate("0000000000"));
    assert!(validate("1"));
    assert!(validate("9999999999"));
    assert!(validate("320193"));
    assert!(!validate(""));
    assert!(!validate("12345678901"));
    assert!(!validate("-1"));
    assert!(!validate("12a"));
    // The divergence from `parse` is intentional: these pass the syntax
    // check yet fail the range check.
    assert!(parse("0").is_err());
    assert!(parse("0000000000").is_err());
}

#[test]
fn leading_zeros_accepted_on_input_never_rendered_on_output() {
    let cik = parse("0000320193").unwrap();
    assert_eq!(cik.value(), 320193);
    assert_eq!(cik.to_text(), "320193");
}

#[test]
fn round_trip_of_parsed_values() {
    for text in ["1", "7", "320193", "1750", "1923807", "9999999999"] {
        let cik = parse(text).unwrap();
        let rendered = cik.to_text();
        assert_eq!(rendered, text);
        let again = parse(&rendered).unwrap();
        assert_eq!(again, cik);
        assert_eq!(again.value(), cik.value());
    }
}

#[test]
fn round_trip_of_built_values() {
    for v in [1u64, 9, 10, 99, 100, 320193, 1_000_000_000, 9_999_999_999] {
        let cik = build(v).unwrap();
        let again = parse(&cik.to_text()).unwrap();
        assert_eq!(again.value(), v);
    }
}

#[test]
fn from_str_goes_through_parse() {
    let cik = CIK::from_str("320193").unwrap();
    assert_eq!(cik.value(), 320193);
    assert!(CIK::from_str("0").is_err());
}

#[test]
fn try_from_goes_through_build() {
    let cik = CIK::try_from(320193u64).unwrap();
    assert_eq!(cik.value(), 320193);
    assert!(matches!(
        CIK::try_from(0u64),
        Err(CIKError::InvalidValue { was: 0 })
    ));
}

#[test]
fn ordering_equality_and_hashing_follow_the_value() {
    let a = build(5).unwrap();
    let b = build(5).unwrap();
    let c = build(6).unwrap();
    assert_eq!(a, b);
    assert_ne!(a, c);
    assert!(a < c);
    assert!(c > b);
    let mut ha = DefaultHasher::new();
    a.hash(&mut ha);
    let mut hb = DefaultHasher::new();
    b.hash(&mut hb);
    assert_eq!(ha.finish(), hb.finish());
}

#[test]
fn debug_render_carries_a_type_tag() {
    let cik = build(320193).unwrap();
    assert_eq!(cik.debug_render(), "CIK320193");
}

#[test]
fn error_messages_name_the_offending_input() {
    assert_eq!(
        parse("").unwrap_err().message(),
        "invalid length 0 bytes when expecting 1 to 10"
    );
    assert_eq!(
        parse("10000000000").unwrap_err().message(),
        "invalid length 11 bytes when expecting 1 to 10"
    );
    assert_eq!(
        parse("12a4").unwrap_err().message(),
        "invalid format 12a4 when expecting integer"
    );
    assert_eq!(
        build(0).unwrap_err().message(),
        "invalid value 0 when expecting positive number up to 9,999,999,999"
    );
    assert_eq!(
        build(10_000_000_000).unwrap_err().message(),
        "invalid value 10000000000 when expecting positive number up to 9,999,999,999"
    );
}

#[test]
fn doesnt_crash() {
    let inputs = [
        "",
        " ",
        "\0",
        "0",
        "00",
        "+0",
        "-0",
        "٣٢٠١٩٣",
        "①②③",
        "8589934592",
        "99999999999999999999",
        "١",
        "🦀🦀🦀",
        "\u{202e}123",
        "123\n",
        "0x1F",
        "1e9",
        "NaN",
        "null",
        "\"320193\"",
        "　３２０１９３",
        "ΔΩ",
        "a]£4&(qwe~`",
        "\t42",
    ];
    for s in inputs {
        // Every outcome is a plain returned value: success or one of the
        // defined error kinds, never a panic.
        match parse(s) {
            Ok(cik) => assert!(cik.value() >= 1),
            Err(CIKError::InvalidLength { .. }) => {}
            Err(CIKError::InvalidFormat { .. }) => {}
            Err(CIKError::InvalidValue { .. }) => {}
            Err(_) => {}
        }
    }
    let long = "9".repeat(100_000);
    assert!(matches!(
        parse(&long),
        Err(CIKError::InvalidLength { was: 100_000 })
    ));
}
