use vault_kms_provider::utilities::date::{from_iso_string_to_epoch, ParseError};
use vault_kms_provider::utilities::decimal::{i64_to_decimal, u64_to_decimal};

#[test]
fn converts_a_date_string_to_seconds_from_epoch() {
    let date = "2024-12-02T06:09:19+0000";
    assert_eq!(from_iso_string_to_epoch(date).unwrap(), 1733119759);
}

#[test]
fn returns_an_error_if_the_date_cannot_be_parsed() {
    let date = "";
    assert!(from_iso_string_to_epoch(date).is_err());
    assert_eq!(from_iso_string_to_epoch("tomorrow"), Err(ParseError));
}

#[test]
fn converts_the_epoch_itself_and_a_moment_before_it() {
    assert_eq!(from_iso_string_to_epoch("1970-01-01T00:00:00Z"), Ok(0));
    assert_eq!(from_iso_string_to_epoch("1969-12-31 23:59:59Z"), Ok(-1));
}

#[test]
fn writes_numbers_in_decimal() {
    assert_eq!(u64_to_decimal(0), "0");
    assert_eq!(u64_to_decimal(7), "7");
    assert_eq!(u64_to_decimal(10), "10");
    assert_eq!(u64_to_decimal(1733119759), "1733119759");
    assert_eq!(u64_to_decimal(u64::MAX), u64::MAX.to_string());
    assert_eq!(i64_to_decimal(0), "0");
    assert_eq!(i64_to_decimal(-1), "-1");
    assert_eq!(i64_to_decimal(-1733119759), "-1733119759");
    assert_eq!(i64_to_decimal(i64::MAX), i64::MAX.to_string());
    assert_eq!(i64_to_decimal(i64::MIN), i64::MIN.to_string());
}
