use vstd::prelude::*;

verus! {

/// How a tag number is interpreted: as a TIFF attribute of the image file
/// directory, or as an Exif attribute. No other group is read.
#[derive(Clone, Copy, Debug, PartialEq, Eq, Structural)]
pub enum Context {
    Tiff,
    Exif,
}

/// A metadata tag: a number within a context.
#[derive(Clone, Copy, Debug, PartialEq, Eq, Structural)]
pub struct Tag {
    pub context: Context,
    pub number: u16,
}

/// Where a field is looked up: the main image or its embedded preview.
#[derive(Clone, Copy, Debug, PartialEq, Eq, Structural)]
pub enum Section {
    Primary,
    Thumbnail,
}

impl Section {
    /// The number of the image file directory that holds the section.
    pub open spec fn spec_ifd(&self) -> u16 {
        match self {
            Section::Primary => 0,
            Section::Thumbnail => 1,
        }
    }

    #[verifier::when_used_as_spec(spec_ifd)]
    pub fn ifd(&self) -> (r: u16)
        ensures
            r == self.spec_ifd(),
    {
        match self {
            Section::Primary => 0,
            Section::Thumbnail => 1,
        }
    }
}

pub open spec fn tiff_tag(number: u16) -> Tag {
    Tag { context: Context::Tiff, number }
}

pub open spec fn exif_tag(number: u16) -> Tag {
    Tag { context: Context::Exif, number }
}

/// The tags that extraction looks at, in the order it looks at them: image
/// width and length, x and y resolution, make, model, software, artist,
/// copyright, image description, and the three date/time tags.
pub open spec fn interest_tags() -> Seq<Tag> {
    seq![
        tiff_tag(0x100),
        tiff_tag(0x101),
        tiff_tag(0x11a),
        tiff_tag(0x11b),
        tiff_tag(0x10f),
        tiff_tag(0x110),
        tiff_tag(0x131),
        tiff_tag(0x13b),
        tiff_tag(0x8298),
        tiff_tag(0x10e),
        tiff_tag(0x132),
        exif_tag(0x9003),
        exif_tag(0x9004),
    ]
}

impl Tag {
    /// Date-time, date-time-original or date-time-digitized.
    pub open spec fn spec_is_date(&self) -> bool {
        ||| *self == tiff_tag(0x132)
        ||| *self == exif_tag(0x9003)
        ||| *self == exif_tag(0x9004)
    }

    #[verifier::when_used_as_spec(spec_is_date)]
    pub fn is_date(&self) -> (r: bool)
        ensures
            r == self.spec_is_date(),
    {
        match self.context {
            Context::Tiff => self.number == 0x132,
            Context::Exif => self.number == 0x9003 || self.number == 0x9004,
        }
    }
}

/// The tags of [`interest_tags`], in order.
pub fn interest_list() -> (r: Vec<Tag>)
    ensures
        r@ == interest_tags(),
{
    let mut r: Vec<Tag> = Vec::new();
    r.push(Tag { context: Context::Tiff, number: 0x100 });
    r.push(Tag { context: Context::Tiff, number: 0x101 });
    r.push(Tag { context: Context::Tiff, number: 0x11a });
    r.push(Tag { context: Context::Tiff, number: 0x11b });
    r.push(Tag { context: Context::Tiff, number: 0x10f });
    r.push(Tag { context: Context::Tiff, number: 0x110 });
    r.push(Tag { context: Context::Tiff, number: 0x131 });
    r.push(Tag { context: Context::Tiff, number: 0x13b });
    r.push(Tag { context: Context::Tiff, number: 0x8298 });
    r.push(Tag { context: Context::Tiff, number: 0x10e });
    r.push(Tag { context: Context::Tiff, number: 0x132 });
    r.push(Tag { context: Context::Exif, number: 0x9003 });
    r.push(Tag { context: Context::Exif, number: 0x9004 });
    assert(r@ =~= interest_tags());
    r
}

/// A raw field value as the container holds it.
#[derive(Clone, Debug)]
pub enum RawValue {
    Byte(Vec<u8>),
    Short(Vec<u16>),
    Long(Vec<u32>),
    /// Unsigned numerator / denominator pairs.
    Rational(Vec<(u32, u32)>),
    /// Signed numerator / denominator pairs.
    SRational(Vec<(i32, i32)>),
    /// One byte string per null-terminated component.
    Ascii(Vec<Vec<u8>>),
    /// Any other encoding.
    Other,
}

/// A field found in the container: its value and the text that the container
/// reader renders it as.
#[derive(Clone, Debug)]
pub struct RawField {
    pub value: RawValue,
    pub display: String,
}

} // verus!
