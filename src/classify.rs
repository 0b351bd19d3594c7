use vstd::prelude::*;
use crate::attributes::{put, AttributeValue, Entry, ValueView};
use crate::field::{RawField, RawValue, Tag};
use crate::outside::{datetime_of, parse_datetime, snake_case, snake_case_of, tag_name, tag_name_of, utf8, utf8_of};

verus! {

/// The layout of a date/time string: `YYYY:MM:DD HH:MM:SS`.
pub open spec fn datetime_format() -> Seq<char> {
    seq!['%', 'Y', ':', '%', 'm', ':', '%', 'd', ' ', '%', 'H', ':', '%', 'M', ':', '%', 'S']
}

/// The name under which a tag's attribute is stored.
pub open spec fn attribute_name(tag: Tag) -> Seq<char> {
    snake_case_of(tag_name_of(tag))
}

/// The timestamp that a date/time field holds: its first string, decoded as
/// UTF-8 and read in [`datetime_format`]. Nothing for other tags, other
/// values, or text that does not decode or parse.
pub open spec fn date_of(tag: Tag, f: RawField) -> Option<i64> {
    match f.value {
        RawValue::Ascii(v) => if tag.spec_is_date() && v@.len() > 0 {
            match utf8_of(v@[0]@) {
                Some(s) => datetime_of(s, datetime_format()),
                None => None,
            }
        } else {
            None
        },
        _ => None,
    }
}

/// The value a field yields, given the timestamp its text was read as:
/// the first unsigned integer; the first rational as numerator and
/// denominator; a timestamp for a date/time tag; otherwise the display text.
/// Nothing where there is no first component or no timestamp.
pub open spec fn value_of(tag: Tag, f: RawField, date: Option<i64>) -> Option<ValueView> {
    match f.value {
        RawValue::Byte(v) => if v@.len() > 0 { Some(ValueView::UInt(v@[0] as u64)) } else { None },
        RawValue::Short(v) => if v@.len() > 0 { Some(ValueView::UInt(v@[0] as u64)) } else { None },
        RawValue::Long(v) => if v@.len() > 0 { Some(ValueView::UInt(v@[0] as u64)) } else { None },
        RawValue::Rational(v) => if v@.len() > 0 {
            Some(ValueView::Rational(v@[0].0 as i64, v@[0].1 as i64))
        } else {
            None
        },
        RawValue::SRational(v) => if v@.len() > 0 {
            Some(ValueView::Rational(v@[0].0 as i64, v@[0].1 as i64))
        } else {
            None
        },
        RawValue::Ascii(_) => if tag.spec_is_date() {
            match date {
                Some(t) => Some(ValueView::Timestamp(t)),
                None => None,
            }
        } else {
            Some(ValueView::Str(f.display@))
        },
        RawValue::Other => Some(ValueView::Str(f.display@)),
    }
}

/// `s` after the field of `tag` has been added to it.
pub open spec fn add_spec(s: Seq<Entry>, tag: Tag, f: RawField) -> Seq<Entry> {
    match value_of(tag, f, date_of(tag, f)) {
        Some(v) => put(s, attribute_name(tag), v),
        None => s,
    }
}

pub open spec fn opt_view(r: Option<AttributeValue>) -> Option<ValueView> {
    match r {
        Some(a) => Some(a@),
        None => None,
    }
}

/// The value of a field, given the timestamp its text was read as.
pub fn classify(tag: Tag, field: &RawField, date: Option<i64>) -> (r: Option<AttributeValue>)
    ensures
        opt_view(r) == value_of(tag, *field, date),
{
    match &field.value {
        RawValue::Byte(v) => if v.len() > 0 { Some(AttributeValue::UInt(v[0] as u64)) } else { None },
        RawValue::Short(v) => if v.len() > 0 { Some(AttributeValue::UInt(v[0] as u64)) } else { None },
        RawValue::Long(v) => if v.len() > 0 { Some(AttributeValue::UInt(v[0] as u64)) } else { None },
        RawValue::Rational(v) => if v.len() > 0 {
            Some(AttributeValue::Rational(v[0].0 as i64, v[0].1 as i64))
        } else {
            None
        },
        RawValue::SRational(v) => if v.len() > 0 {
            Some(AttributeValue::Rational(v[0].0 as i64, v[0].1 as i64))
        } else {
            None
        },
        RawValue::Ascii(_) => if tag.is_date() {
            match date {
                Some(t) => Some(AttributeValue::Timestamp(t)),
                None => None,
            }
        } else {
            Some(AttributeValue::Str(field.display.clone()))
        },
        RawValue::Other => Some(AttributeValue::Str(field.display.clone())),
    }
}

/// Reads the timestamp of a date/time field.
pub fn field_date(tag: Tag, field: &RawField) -> (r: Option<i64>)
    ensures
        r == date_of(tag, *field),
{
    match &field.value {
        RawValue::Ascii(v) => if tag.is_date() && v.len() > 0 {
            match utf8(v[0].as_slice()) {
                Some(s) => {
                    let fmt = "%Y:%m:%d %H:%M:%S";
                    proof {
                        reveal_strlit("%Y:%m:%d %H:%M:%S");
                        assert(fmt@ =~= datetime_format());
                    }
                    parse_datetime(s.as_str(), fmt)
                },
                None => None,
            }
        } else {
            None
        },
        _ => None,
    }
}

/// The attribute name of a tag: the snake_case form of its display name.
pub fn attribute_name_of(tag: Tag) -> (r: String)
    ensures
        r@ == attribute_name(tag),
{
    let name = tag_name(tag);
    snake_case(name.as_str())
}

} // verus!
