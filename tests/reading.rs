use fan_control::reading::{parse_millidegrees, SensorError};

#[test]
fn reads_plain_millidegrees() {
    assert_eq!(parse_millidegrees(b"45000"), Ok(45000));
    assert_eq!(parse_millidegrees(b"72300"), Ok(72300));
}

#[test]
fn trims_surrounding_whitespace() {
    assert_eq!(parse_millidegrees(b"45000\n"), Ok(45000));
    assert_eq!(parse_millidegrees(b"  \t61250\r\n"), Ok(61250));
}

#[test]
fn reads_signed_values() {
    assert_eq!(parse_millidegrees(b"-5000"), Ok(-5000));
    assert_eq!(parse_millidegrees(b"+5000"), Ok(5000));
    assert_eq!(parse_millidegrees(b"0"), Ok(0));
}

#[test]
fn rejects_malformed_text() {
    assert_eq!(parse_millidegrees(b"abc"), Err(SensorError::Malformed));
    assert_eq!(parse_millidegrees(b""), Err(SensorError::Malformed));
    assert_eq!(parse_millidegrees(b" \n"), Err(SensorError::Malformed));
    assert_eq!(parse_millidegrees(b"-"), Err(SensorError::Malformed));
    assert_eq!(parse_millidegrees(b"45 000"), Err(SensorError::Malformed));
    assert_eq!(parse_millidegrees(b"45000x"), Err(SensorError::Malformed));
    assert_eq!(parse_millidegrees(b"45.5"), Err(SensorError::Malformed));
}

#[test]
fn sixty_four_bit_limits() {
    assert_eq!(parse_millidegrees(b"9223372036854775807"), Ok(i64::MAX));
    assert_eq!(parse_millidegrees(b"-9223372036854775808"), Ok(i64::MIN));
    assert_eq!(
        parse_millidegrees(b"9223372036854775808"),
        Err(SensorError::OutOfRange)
    );
    assert_eq!(
        parse_millidegrees(b"-9223372036854775809"),
        Err(SensorError::OutOfRange)
    );
    assert_eq!(
        parse_millidegrees(b"123456789012345678901234567890"),
        Err(SensorError::OutOfRange)
    );
}

#[test]
fn malformed_wins_over_out_of_range() {
    assert_eq!(
        parse_millidegrees(b"123456789012345678901234567890z"),
        Err(SensorError::Malformed)
    );
}
