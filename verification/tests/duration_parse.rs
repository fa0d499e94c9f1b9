use media_mangler::duration::parse_duration_ms;
use media_mangler::gateway::GatewayError;

fn ok(out: &[u8]) -> u64 {
    match parse_duration_ms(out) {
        Ok(n) => n,
        Err(e) => panic!("expected a duration from {out:?}, got {e:?}"),
    }
}

fn rejected(out: &[u8]) {
    match parse_duration_ms(out) {
        Err(GatewayError::InvalidData(_)) => {},
        other => panic!("expected invalid data for {out:?}, got {other:?}"),
    }
}

#[test]
fn plain_seconds() {
    assert_eq!(ok(b"7"), 7000);
    assert_eq!(ok(b"0"), 0);
    assert_eq!(ok(b"3600"), 3600000);
}

#[test]
fn fractional_seconds() {
    assert_eq!(ok(b"3600.004000"), 3600004);
    assert_eq!(ok(b"12.5"), 12500);
    assert_eq!(ok(b"0.25"), 250);
    assert_eq!(ok(b"0.123"), 123);
}

#[test]
fn fraction_is_truncated_below_the_millisecond() {
    assert_eq!(ok(b"0.1239"), 123);
    assert_eq!(ok(b"1.99999"), 1999);
}

#[test]
fn bare_point_forms() {
    assert_eq!(ok(b".5"), 500);
    assert_eq!(ok(b"12."), 12000);
}

#[test]
fn surrounding_whitespace_is_trimmed() {
    assert_eq!(ok(b" 12.5\n"), 12500);
    assert_eq!(ok(b"\t42\r\n"), 42000);
}

#[test]
fn sixteen_integer_digits_still_fit() {
    assert_eq!(ok(b"9999999999999999"), 9999999999999999000);
}

#[test]
fn empty_or_blank_is_invalid() {
    rejected(b"");
    rejected(b"  \n");
}

#[test]
fn non_numeric_is_invalid() {
    rejected(b"abc");
    rejected(b"12a");
    rejected(b"a12");
    rejected(b"-5");
    rejected(b"1e3");
    rejected(b"N/A");
}

#[test]
fn two_points_are_invalid() {
    rejected(b"1.2.3");
    rejected(b"..");
}

#[test]
fn lone_point_is_invalid() {
    rejected(b".");
}

#[test]
fn too_many_integer_digits_are_invalid() {
    rejected(b"12345678901234567");
}
