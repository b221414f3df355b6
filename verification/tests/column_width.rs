use adaptive_card_rs::card::{ColumnWidth, ColumnWidthKind};
use adaptive_card_rs::error::{DecodeError, ErrorKind};
use serde_json::Value;

fn json(text: &str) -> Value {
    serde_json::from_str(text).unwrap()
}

fn invalid(raw: Value) -> Result<ColumnWidth, DecodeError> {
    Err(DecodeError { kind: ErrorKind::InvalidColumnWidth, path: vec![], raw: Some(raw) })
}

#[test]
fn width_constructors_make_what_they_say() {
    assert_eq!(ColumnWidth::auto().kind(), ColumnWidthKind::Auto);
    assert_eq!(ColumnWidth::stretch().kind(), ColumnWidthKind::Stretch);
    assert_eq!(ColumnWidth::pixels(200).kind(), ColumnWidthKind::Pixel(200));
    assert_eq!(ColumnWidth::weight(2).kind(), ColumnWidthKind::Relative(2));
}

#[test]
fn width_is_written_by_its_kind() {
    assert_eq!(ColumnWidth::auto().encode(), json(r#""auto""#));
    assert_eq!(ColumnWidth::stretch().encode(), json(r#""stretch""#));
    assert_eq!(ColumnWidth::pixels(200).encode(), json(r#""200px""#));
    assert_eq!(ColumnWidth::pixels(0).encode(), json(r#""0px""#));
    assert_eq!(ColumnWidth::pixels(u32::MAX).encode(), json(r#""4294967295px""#));
    assert_eq!(ColumnWidth::weight(200).encode(), json("200"));
    assert_eq!(ColumnWidth::weight(0).encode(), json("0"));
}

#[test]
fn width_is_told_apart_by_the_kind_of_value() {
    assert_eq!(ColumnWidth::decode(&json("200")), Ok(ColumnWidth::weight(200)));
    assert_eq!(ColumnWidth::decode(&json(r#""200px""#)), Ok(ColumnWidth::pixels(200)));
    assert_eq!(ColumnWidth::decode(&json(r#""auto""#)), Ok(ColumnWidth::auto()));
    assert_eq!(ColumnWidth::decode(&json(r#""stretch""#)), Ok(ColumnWidth::stretch()));
    assert_eq!(ColumnWidth::decode(&json(r#""stretchX""#)), invalid(json(r#""stretchX""#)));
}

#[test]
fn width_in_pixels_is_digits_and_px() {
    assert_eq!(ColumnWidth::parse("0px"), Some(ColumnWidth::pixels(0)));
    assert_eq!(ColumnWidth::parse("007px"), Some(ColumnWidth::pixels(7)));
    assert_eq!(ColumnWidth::parse("4294967295px"), Some(ColumnWidth::pixels(u32::MAX)));
    assert_eq!(ColumnWidth::parse("00000000000000000000012px"), Some(ColumnWidth::pixels(12)));
    assert_eq!(ColumnWidth::parse("4294967296px"), None);
    assert_eq!(ColumnWidth::parse("99999999999999999999999999px"), None);
    assert_eq!(ColumnWidth::parse("px"), None);
    assert_eq!(ColumnWidth::parse("x"), None);
    assert_eq!(ColumnWidth::parse(""), None);
    assert_eq!(ColumnWidth::parse("12"), None);
    assert_eq!(ColumnWidth::parse("12 px"), None);
    assert_eq!(ColumnWidth::parse("12PX"), None);
    assert_eq!(ColumnWidth::parse("-5px"), None);
    assert_eq!(ColumnWidth::parse("+5px"), None);
    assert_eq!(ColumnWidth::parse("1.5px"), None);
    assert_eq!(ColumnWidth::parse("12pxx"), None);
    assert_eq!(ColumnWidth::parse("\u{661}\u{662}px"), None);
    assert_eq!(ColumnWidth::parse("12p\u{445}"), None);
    assert_eq!(ColumnWidth::parse("Auto"), None);
}

#[test]
fn width_refuses_every_other_shape() {
    for text in ["-3", "1.5", "4294967296", "true", "null", "[]", "{}", r#""""#, r#""wide""#] {
        assert_eq!(ColumnWidth::decode(&json(text)), invalid(json(text)), "{}", text);
    }
    assert_eq!(ColumnWidth::decode(&json("4294967295")), Ok(ColumnWidth::weight(u32::MAX)));
}

#[test]
fn width_is_read_back_as_written() {
    for n in [0, 1, 9, 10, 11, 99, 100, 101, 200, 65535, 1_000_000, u32::MAX - 1, u32::MAX] {
        for width in [ColumnWidth::pixels(n), ColumnWidth::weight(n)] {
            assert_eq!(ColumnWidth::decode(&width.encode()), Ok(width));
        }
    }
    for width in [ColumnWidth::auto(), ColumnWidth::stretch()] {
        assert_eq!(ColumnWidth::decode(&width.encode()), Ok(width));
    }
}
