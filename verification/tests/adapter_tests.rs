use cik::adapter::{from_signed, from_text, from_unsigned, serial_value};
use cik::build;

#[test]
fn serialize() {
    let test_cik = build(320193).unwrap(); // Apple

    let serialized = format!("{}", serial_value(&test_cik));
    println!("serialized = {}", serialized);
    assert_eq!(serialized.to_string(), "320193");
}

#[test]
fn deserialize_u64() {
    let test_cik = build(320193).unwrap(); // Apple

    let deserialized = from_unsigned(320193).unwrap();

    println!("deserialized = {}", deserialized.to_text());
    assert_eq!(deserialized, test_cik);
}

#[test]
fn deserialize_string() {
    let test_cik = build(320193).unwrap(); // Apple

    let deserialized = from_text("320193").unwrap();

    println!("deserialized = {}", deserialized.to_text());
    assert_eq!(deserialized, test_cik);
}

#[test]
fn deserialize_non_negative_signed() {
    let deserialized = from_signed(320193).unwrap();
    assert_eq!(deserialized, build(320193).unwrap());
}

#[test]
fn deserialize_negative_fails_with_adapter_error() {
    let err = from_signed(-5).unwrap_err();
    assert_eq!(err.message, "Cannot deserialize -5: Negative values not allowed");
    let err = from_signed(i64::MIN).unwrap_err();
    assert_eq!(
        err.message,
        "Cannot deserialize -9223372036854775808: Negative values not allowed"
    );
}

#[test]
fn deserialize_wraps_the_core_reason() {
    let err = from_unsigned(0).unwrap_err();
    assert_eq!(
        err.message,
        "Cannot deserialize 0: invalid value 0 when expecting positive number up to 9,999,999,999"
    );
    let err = from_unsigned(10_000_000_000).unwrap_err();
    assert_eq!(
        err.message,
        "Cannot deserialize 10000000000: invalid value 10000000000 when expecting positive number up to 9,999,999,999"
    );
    let err = from_text("12a4").unwrap_err();
    assert_eq!(
        err.message,
        "Cannot deserialize 12a4: invalid format 12a4 when expecting integer"
    );
    let err = from_text("").unwrap_err();
    assert_eq!(
        err.message,
        "Cannot deserialize : invalid length 0 bytes when expecting 1 to 10"
    );
    let err = from_text("0").unwrap_err();
    assert_eq!(
        err.message,
        "Cannot deserialize 0: invalid value 0 when expecting positive number up to 9,999,999,999"
    );
}

#[test]
fn every_accepted_shape_converges_on_the_same_value() {
    let from_u = from_unsigned(1750).unwrap();
    let from_i = from_signed(1750).unwrap();
    let from_s = from_text("1750").unwrap();
    let built = build(1750).unwrap();
    assert_eq!(from_u, built);
    assert_eq!(from_i, built);
    assert_eq!(from_s, built);
}
