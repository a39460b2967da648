use pyckitup::size::{Size, SizeError};

#[test]
fn parses_width_by_height() {
    assert_eq!(Size::from_str("800x600"), Ok(Size(800, 600)));
    assert_eq!(Size::from_str("1x1"), Ok(Size(1, 1)));
    assert_eq!(Size::from_str("0x0"), Ok(Size(0, 0)));
}

#[test]
fn accepts_signs_like_an_integer_parse() {
    assert_eq!(Size::from_str("-5x3"), Ok(Size(-5, 3)));
    assert_eq!(Size::from_str("+800x+600"), Ok(Size(800, 600)));
}

#[test]
fn rejects_a_bad_width() {
    assert_eq!(Size::from_str("ax600"), Err(SizeError::BadWidth));
    assert_eq!(Size::from_str("x600"), Err(SizeError::BadWidth));
    assert_eq!(Size::from_str(""), Err(SizeError::BadWidth));
    // Overflow past the integer range is a parse failure, not a wrap.
    assert_eq!(Size::from_str("2147483648x5"), Err(SizeError::BadWidth));
    assert_eq!(Size::from_str("2147483647x5"), Ok(Size(2147483647, 5)));
    assert_eq!(Size::from_str("-2147483648x5"), Ok(Size(-2147483648, 5)));
    assert_eq!(Size::from_str("-2147483649x5"), Err(SizeError::BadWidth));
}

#[test]
fn rejects_a_missing_or_bad_height() {
    assert_eq!(Size::from_str("800"), Err(SizeError::MissingHeight));
    assert_eq!(Size::from_str("800x"), Err(SizeError::BadHeight));
    assert_eq!(Size::from_str("800xb"), Err(SizeError::BadHeight));
    assert_eq!(Size::from_str("12xx3"), Err(SizeError::BadHeight));
}

#[test]
fn rejects_a_third_part() {
    assert_eq!(Size::from_str("1x2x3"), Err(SizeError::TrailingPart));
    assert_eq!(Size::from_str("1x2x"), Err(SizeError::TrailingPart));
}
