use adaptive_card_rs::text::{decimal_text, parse_decimal_prefix, parse_pixels_text, pixels_text};

#[test]
fn decimal_text_has_no_leading_zeros() {
    assert_eq!(decimal_text(0), "0");
    assert_eq!(decimal_text(7), "7");
    assert_eq!(decimal_text(10), "10");
    assert_eq!(decimal_text(109), "109");
    assert_eq!(decimal_text(4294967295), "4294967295");
    for n in [1u32, 9, 11, 99, 100, 999, 1000, 123456789, u32::MAX - 1] {
        assert_eq!(decimal_text(n), n.to_string());
    }
}

#[test]
fn pixels_text_is_digits_and_px() {
    assert_eq!(pixels_text(0), "0px");
    assert_eq!(pixels_text(200), "200px");
    assert_eq!(pixels_text(u32::MAX), "4294967295px");
}

#[test]
fn decimal_prefix_is_read_up_to_its_length() {
    assert_eq!(parse_decimal_prefix("200px", 3), Some(200));
    assert_eq!(parse_decimal_prefix("200px", 2), Some(20));
    assert_eq!(parse_decimal_prefix("200px", 1), Some(2));
    assert_eq!(parse_decimal_prefix("200px", 0), None);
    assert_eq!(parse_decimal_prefix("200px", 4), None);
    assert_eq!(parse_decimal_prefix("200px", 5), None);
    assert_eq!(parse_decimal_prefix("0042", 4), Some(42));
    assert_eq!(parse_decimal_prefix("4294967295", 10), Some(u32::MAX));
    assert_eq!(parse_decimal_prefix("4294967296", 10), None);
    assert_eq!(parse_decimal_prefix("42949672950", 11), None);
    assert_eq!(parse_decimal_prefix("12a4", 4), None);
    assert_eq!(parse_decimal_prefix("12a4", 2), Some(12));
    assert_eq!(parse_decimal_prefix(" 1", 2), None);
    assert_eq!(parse_decimal_prefix("/:", 1), None);
    assert_eq!(parse_decimal_prefix(":", 1), None);
}

#[test]
fn pixels_are_read_back_as_written() {
    for n in [0u32, 1, 9, 10, 19, 200, 65536, 4294967294, u32::MAX] {
        assert_eq!(parse_pixels_text(&pixels_text(n)), Some(n));
    }
    assert_eq!(parse_pixels_text("px"), None);
    assert_eq!(parse_pixels_text("1px "), None);
    assert_eq!(parse_pixels_text("1p"), None);
    assert_eq!(parse_pixels_text("\u{ff11}px"), None);
}
