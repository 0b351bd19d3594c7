use vstd::prelude::*;
use crate::attributes::{Attributes, Entry, ExifAttributes};
use crate::classify::{add_spec, attribute_name_of, classify, field_date};
use crate::field::{interest_list, interest_tags, RawField, Section, Tag};
use crate::outside::{Container, container_parses, field_display_at, field_value_at, fields_of, parsed_fields, read_container};

verus! {

/// The EXIF extractor.
#[derive(Clone, Copy, Debug)]
pub struct Exif {}

/// What a run over a list of files reports back.
#[derive(Clone, Copy, Debug)]
pub struct Results {}

/// The attributes gathered from the first `n` lookups of one section, the
/// `i`-th lookup being that of the `i`-th tag of [`interest_tags`].
pub open spec fn section_upto(found: Seq<Option<RawField>>, n: nat) -> Seq<Entry>
    decreases n,
{
    if n == 0 {
        Seq::empty()
    } else {
        let prev = section_upto(found, (n - 1) as nat);
        match found[n - 1] {
            Some(f) => add_spec(prev, interest_tags()[n - 1], f),
            None => prev,
        }
    }
}

/// The attributes gathered from all lookups of one section.
pub open spec fn section_of(found: Seq<Option<RawField>>) -> Seq<Entry> {
    section_upto(found, found.len())
}

/// The tree built from the lookups of both sections: the primary
/// attributes, and the thumbnail attributes where there are any.
pub open spec fn tree_of(primary: Seq<Option<RawField>>, thumbnail: Seq<Option<RawField>>) -> (
    Seq<Entry>,
    Option<Seq<Entry>>,
) {
    let t = section_of(thumbnail);
    (section_of(primary), if t.len() > 0 { Some(t) } else { None })
}

/// The field of each tag of [`interest_tags`] in one section of the
/// container that these bytes hold, in order.
pub open spec fn found_in(b: Seq<u8>, section: Section) -> Seq<Option<RawField>> {
    Seq::new(
        interest_tags().len(),
        |i: int|
            if parsed_fields(b).contains_key((interest_tags()[i], section.spec_ifd())) {
                Some(parsed_fields(b)[(interest_tags()[i], section.spec_ifd())])
            } else {
                None
            },
    )
}

/// What extraction yields on these bytes: nothing where they hold no
/// container that can be parsed, else the tree of the fields found in it.
pub open spec fn extraction_of(b: Seq<u8>) -> Option<(Seq<Entry>, Option<Seq<Entry>>)> {
    if container_parses(b) {
        Some(tree_of(found_in(b, Section::Primary), found_in(b, Section::Thumbnail)))
    } else {
        None
    }
}

/// Whether one lookup per tag of [`interest_tags`] was made.
pub open spec fn one_per_tag(found: Seq<Option<RawField>>) -> bool {
    found.len() == interest_tags().len()
}

/// The field of `tag` in one section of a parsed container.
fn lookup(c: &Container, tag: Tag, section: Section) -> (r: Option<RawField>)
    ensures
        r == (if fields_of(*c).contains_key((tag, section.spec_ifd())) {
            Some(fields_of(*c)[(tag, section.spec_ifd())])
        } else {
            None
        }),
{
    let ifd = section.ifd();
    match (field_value_at(c, tag, ifd), field_display_at(c, tag, ifd)) {
        (Some(value), Some(display)) => Some(RawField { value, display }),
        _ => None,
    }
}

impl Exif {
    /// Adds the attribute of one field, if it yields one, to `attributes`.
    pub fn add_field_as_attributes(&self, attributes: &mut Attributes, tag: Tag, field: &RawField)
        requires
            old(attributes).wf(),
        ensures
            final(attributes).wf(),
            final(attributes)@ == add_spec(old(attributes)@, tag, *field),
    {
        let name = attribute_name_of(tag);
        let date = field_date(tag, field);
        match classify(tag, field, date) {
            Some(value) => attributes.add_attribute(name, value),
            None => {},
        }
    }

    /// Builds the tree from the field found for each tag of the interest
    /// list in each section.
    pub fn collect_attributes(
        &self,
        primary: &Vec<Option<RawField>>,
        thumbnail: &Vec<Option<RawField>>,
    ) -> (r: ExifAttributes)
        requires
            one_per_tag(primary@),
            one_per_tag(thumbnail@),
        ensures
            r.wf(),
            r@ == tree_of(primary@, thumbnail@),
    {
        let tags = interest_list();
        let mut p = Attributes::new();
        let mut t = Attributes::new();
        let mut i: usize = 0;
        while i < tags.len()
            invariant
                tags@ == interest_tags(),
                one_per_tag(primary@),
                one_per_tag(thumbnail@),
                i <= tags.len(),
                p.wf(),
                t.wf(),
                p@ == section_upto(primary@, i as nat),
                t@ == section_upto(thumbnail@, i as nat),
            decreases tags.len() - i,
        {
            match &primary[i] {
                Some(f) => self.add_field_as_attributes(&mut p, tags[i], f),
                None => {},
            }
            match &thumbnail[i] {
                Some(f) => self.add_field_as_attributes(&mut t, tags[i], f),
                None => {},
            }
            i = i + 1;
        }
        if t.count() > 0 {
            ExifAttributes { primary: p, thumbnail: Some(t) }
        } else {
            ExifAttributes { primary: p, thumbnail: None }
        }
    }

    /// Reads a container and builds its attribute tree. Nothing where the
    /// bytes hold no container that can be parsed, which empty input never
    /// does. The tree depends on the bytes alone, so two calls on the same
    /// bytes give the same tree.
    pub fn to_attributes(&self, data: &[u8]) -> (r: Option<ExifAttributes>)
        ensures
            r.is_some() == container_parses(data@),
            data@.len() == 0 ==> r.is_none(),
            match r {
                Some(a) => a.wf() && extraction_of(data@) == Some(a@),
                None => extraction_of(data@).is_none(),
            },
    {
        let c = match read_container(data) {
            Some(c) => c,
            None => return None,
        };
        let tags = interest_list();
        let mut primary: Vec<Option<RawField>> = Vec::new();
        let mut thumbnail: Vec<Option<RawField>> = Vec::new();
        let mut i: usize = 0;
        while i < tags.len()
            invariant
                tags@ == interest_tags(),
                i <= tags.len(),
                fields_of(c) == parsed_fields(data@),
                primary@ =~= found_in(data@, Section::Primary).subrange(0, i as int),
                thumbnail@ =~= found_in(data@, Section::Thumbnail).subrange(0, i as int),
            decreases tags.len() - i,
        {
            let p = lookup(&c, tags[i], Section::Primary);
            let t = lookup(&c, tags[i], Section::Thumbnail);
            primary.push(p);
            thumbnail.push(t);
            i = i + 1;
        }
        assert(primary@ =~= found_in(data@, Section::Primary));
        assert(thumbnail@ =~= found_in(data@, Section::Thumbnail));
        let r = self.collect_attributes(&primary, &thumbnail);
        Some(r)
    }
}

} // verus!
