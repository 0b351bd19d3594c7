use tap_plugin_exif::classify::{attribute_name_of, classify, field_date};
use tap_plugin_exif::{AttributeValue, Context, RawField, RawValue, Tag};

fn tiff(number: u16) -> Tag {
    Tag { context: Context::Tiff, number }
}

fn exif(number: u16) -> Tag {
    Tag { context: Context::Exif, number }
}

fn field(value: RawValue, display: &str) -> RawField {
    RawField { value, display: display.to_string() }
}

fn ascii(text: &str) -> RawField {
    field(RawValue::Ascii(vec![text.as_bytes().to_vec()]), &format!("\"{}\"", text))
}

fn value_of(tag: Tag, f: &RawField) -> Option<AttributeValue> {
    classify(tag, f, field_date(tag, f))
}

#[test]
fn byte_short_long_give_the_first_component() {
    let t = tiff(0x100);
    assert_eq!(value_of(t, &field(RawValue::Byte(vec![200, 3]), "200, 3")), Some(AttributeValue::UInt(200)));
    assert_eq!(value_of(t, &field(RawValue::Short(vec![640]), "640")), Some(AttributeValue::UInt(640)));
    assert_eq!(value_of(t, &field(RawValue::Long(vec![4_000_000_000]), "4000000000")), Some(AttributeValue::UInt(4_000_000_000)));
}

#[test]
fn integer_widths_normalise_alike() {
    let t = tiff(0x101);
    let a = value_of(t, &field(RawValue::Byte(vec![42]), "42"));
    let b = value_of(t, &field(RawValue::Short(vec![42]), "42"));
    let c = value_of(t, &field(RawValue::Long(vec![42]), "42"));
    assert_eq!(a, Some(AttributeValue::UInt(42)));
    assert_eq!(a, b);
    assert_eq!(b, c);
}

#[test]
fn empty_integer_list_is_skipped() {
    assert_eq!(value_of(tiff(0x100), &field(RawValue::Long(vec![]), "")), None);
    assert_eq!(value_of(tiff(0x100), &field(RawValue::Byte(vec![]), "")), None);
}

#[test]
fn rationals_keep_numerator_and_denominator() {
    assert_eq!(
        value_of(tiff(0x11a), &field(RawValue::Rational(vec![(300, 1), (5, 2)]), "300, 2.5")),
        Some(AttributeValue::Rational(300, 1))
    );
    assert_eq!(
        value_of(tiff(0x11b), &field(RawValue::SRational(vec![(-7, 2)]), "-3.5")),
        Some(AttributeValue::Rational(-7, 2))
    );
    assert_eq!(
        value_of(tiff(0x11b), &field(RawValue::Rational(vec![(u32::MAX, 0)]), "inf")),
        Some(AttributeValue::Rational(u32::MAX as i64, 0))
    );
}

#[test]
fn date_tags_parse_as_utc() {
    for tag in [tiff(0x132), exif(0x9003), exif(0x9004)] {
        let f = ascii("2023:07:04 15:30:00");
        assert_eq!(field_date(tag, &f), Some(1_688_484_600));
        assert_eq!(value_of(tag, &f), Some(AttributeValue::Timestamp(1_688_484_600)));
    }
}

#[test]
fn malformed_dates_give_no_attribute() {
    let tag = exif(0x9003);
    assert_eq!(value_of(tag, &ascii("2023-07-04 15:30:00")), None);
    assert_eq!(value_of(tag, &ascii("2023:07:04T15:30:00")), None);
    assert_eq!(value_of(tag, &ascii("2023:0x:04 15:30:00")), None);
    assert_eq!(value_of(tag, &ascii("")), None);
    assert_eq!(value_of(tag, &field(RawValue::Ascii(vec![]), "")), None);
    assert_eq!(value_of(tag, &field(RawValue::Ascii(vec![vec![0xff, 0xfe]]), "")), None);
}

#[test]
fn other_text_uses_the_display_form() {
    assert_eq!(value_of(tiff(0x10f), &ascii("Canon")), Some(AttributeValue::Str("\"Canon\"".to_string())));
    assert_eq!(
        value_of(tiff(0x131), &field(RawValue::Other, "unknown value")),
        Some(AttributeValue::Str("unknown value".to_string()))
    );
}

#[test]
fn names_are_snake_case_display_names() {
    assert_eq!(attribute_name_of(tiff(0x100)), "image_width");
    assert_eq!(attribute_name_of(tiff(0x11a)), "x_resolution");
    assert_eq!(attribute_name_of(tiff(0x10e)), "image_description");
    assert_eq!(attribute_name_of(exif(0x9003)), "date_time_original");
    assert_eq!(attribute_name_of(exif(0x9004)), "date_time_digitized");
}
