use vstd::prelude::*;
use exif::{Context as Cx, In, Value};
use inflector::Inflector;
use crate::field::{Context, RawField, RawValue, Tag};

verus! {

/// The fields parsed from a container, kept in the exif crate's own
/// collection and reached only through [`field_value_at`] and [`field_display_at`].
#[verifier::external_body]
pub struct Container {
    inner: exif::Exif,
}

/// Whether `exif::Reader::read_from_container` parses these bytes.
pub uninterp spec fn container_parses(b: Seq<u8>) -> bool;

/// The fields that `exif::Reader::read_from_container` finds in these
/// bytes, by tag and image file directory number (0 for the primary image,
/// 1 for its thumbnail), each as [`field_value_at`] and [`field_display_at`]
/// hand it out.
pub uninterp spec fn parsed_fields(b: Seq<u8>) -> Map<(Tag, u16), RawField>;

/// The fields that a parsed container holds, by tag and image file
/// directory number.
pub uninterp spec fn fields_of(c: Container) -> Map<(Tag, u16), RawField>;

/// What `str::from_utf8` yields on some bytes: the text, or nothing where
/// the bytes are not UTF-8.
pub uninterp spec fn utf8_of(b: Seq<u8>) -> Option<Seq<char>>;

/// What chrono's `NaiveDateTime::parse_from_str(s, fmt)` yields, as seconds
/// since 1970-01-01T00:00:00 read as UTC, or nothing where `s` does not
/// match `fmt`.
pub uninterp spec fn datetime_of(s: Seq<char>, fmt: Seq<char>) -> Option<i64>;

/// The exif crate's display name of a tag (its `Display` impl).
pub uninterp spec fn tag_name_of(t: Tag) -> Seq<char>;

/// What inflector's `to_snake_case` makes of a string.
pub uninterp spec fn snake_case_of(s: Seq<char>) -> Seq<char>;

/// Relies on `exif::Reader::read_from_container`, reading from memory: the
/// result depends on the bytes alone. No container format is recognised in
/// empty input, so that yields nothing.
#[verifier::external_body]
pub(crate) fn read_container(data: &[u8]) -> (r: Option<Container>)
    ensures
        r.is_some() == container_parses(data@),
        r is Some ==> fields_of(r->0) == parsed_fields(data@),
        data@.len() == 0 ==> r.is_none(),
{
    match exif::Reader::new().read_from_container(&mut std::io::Cursor::new(data)) {
        Ok(inner) => Some(Container { inner }),
        Err(_) => None,
    }
}

/// Relies on `exif::Exif::get_field`, a lookup by tag and image file
/// directory number; the value found is copied variant by variant.
#[verifier::external_body]
pub(crate) fn field_value_at(c: &Container, tag: Tag, ifd: u16) -> (r: Option<RawValue>)
    ensures
        r == (if fields_of(*c).contains_key((tag, ifd)) {
            Some(fields_of(*c)[(tag, ifd)].value)
        } else {
            None
        }),
{
    let ctx = match tag.context { Context::Tiff => Cx::Tiff, Context::Exif => Cx::Exif };
    Some(match c.inner.get_field(exif::Tag(ctx, tag.number), In(ifd))?.value.clone() {
        Value::Byte(v) => RawValue::Byte(v),
        Value::Short(v) => RawValue::Short(v),
        Value::Long(v) => RawValue::Long(v),
        Value::Rational(v) => RawValue::Rational(v.iter().map(|x| (x.num, x.denom)).collect()),
        Value::SRational(v) => RawValue::SRational(v.iter().map(|x| (x.num, x.denom)).collect()),
        Value::Ascii(v) => RawValue::Ascii(v),
        _ => RawValue::Other,
    })
}

/// Relies on `exif::Exif::get_field`, a lookup by tag and image file
/// directory number, and on `exif::Field::display_value`: the text of the
/// field found.
#[verifier::external_body]
pub(crate) fn field_display_at(c: &Container, tag: Tag, ifd: u16) -> (r: Option<String>)
    ensures
        r == (if fields_of(*c).contains_key((tag, ifd)) {
            Some(fields_of(*c)[(tag, ifd)].display)
        } else {
            None
        }),
{
    let ctx = match tag.context { Context::Tiff => Cx::Tiff, Context::Exif => Cx::Exif };
    Some(c.inner.get_field(exif::Tag(ctx, tag.number), In(ifd))?.display_value().to_string())
}

/// Relies on the `Display` impl of `exif::Tag`: the tag's name.
#[verifier::external_body]
pub(crate) fn tag_name(tag: Tag) -> (r: String)
    ensures
        r@ == tag_name_of(tag),
{
    let ctx = match tag.context { Context::Tiff => Cx::Tiff, Context::Exif => Cx::Exif };
    exif::Tag(ctx, tag.number).to_string()
}

/// Relies on inflector's `Inflector::to_snake_case`.
#[verifier::external_body]
pub(crate) fn snake_case(s: &str) -> (r: String)
    ensures
        r@ == snake_case_of(s@),
{
    s.to_snake_case()
}

/// Relies on `std::str::from_utf8`: the text that the bytes encode, if any.
#[verifier::external_body]
pub(crate) fn utf8(b: &[u8]) -> (r: Option<String>)
    ensures
        match r {
            Some(s) => utf8_of(b@) == Some(s@),
            None => utf8_of(b@).is_none(),
        },
{
    std::str::from_utf8(b).ok().map(String::from)
}

/// Relies on chrono's `NaiveDateTime::parse_from_str`, and on `and_utc` and
/// `timestamp` to read the result as UTC seconds.
#[verifier::external_body]
pub(crate) fn parse_datetime(s: &str, fmt: &str) -> (r: Option<i64>)
    ensures
        r == datetime_of(s@, fmt@),
{
    match chrono::NaiveDateTime::parse_from_str(s, fmt) {
        Ok(d) => Some(d.and_utc().timestamp()),
        Err(_) => None,
    }
}

} // verus!
