use fan_control::report::{one_decimal, OneDecimal};

fn dec(negative: bool, whole: u64, tenth: u8) -> OneDecimal {
    OneDecimal { negative, whole, tenth }
}

#[test]
fn one_decimal_of_whole_readings() {
    assert_eq!(one_decimal(45000), dec(false, 45, 0));
    assert_eq!(one_decimal(72300), dec(false, 72, 3));
    assert_eq!(one_decimal(0), dec(false, 0, 0));
}

#[test]
fn one_decimal_rounds_halves_away_from_zero() {
    assert_eq!(one_decimal(72349), dec(false, 72, 3));
    assert_eq!(one_decimal(72350), dec(false, 72, 4));
    assert_eq!(one_decimal(-1250), dec(true, 1, 3));
    assert_eq!(one_decimal(-1249), dec(true, 1, 2));
    assert_eq!(one_decimal(-40), dec(false, 0, 0));
    assert_eq!(one_decimal(-50), dec(true, 0, 1));
}

#[test]
fn one_decimal_at_the_extremes() {
    assert_eq!(one_decimal(i64::MAX), dec(false, 9223372036854775, 8));
    assert_eq!(one_decimal(i64::MIN), dec(true, 9223372036854775, 8));
}
