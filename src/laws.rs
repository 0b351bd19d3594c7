use vstd::prelude::*;
use crate::attributes::{put, Entry, ValueView};
use crate::classify::{add_spec, date_of, value_of};
use crate::extract::{one_per_tag, section_upto, tree_of};
use crate::field::{interest_tags, RawField, RawValue, Tag};

verus! {

/// The first unsigned integer of a byte, short or long value, widened.
pub open spec fn first_uint(v: RawValue) -> Option<u64> {
    match v {
        RawValue::Byte(x) => if x@.len() > 0 { Some(x@[0] as u64) } else { None },
        RawValue::Short(x) => if x@.len() > 0 { Some(x@[0] as u64) } else { None },
        RawValue::Long(x) => if x@.len() > 0 { Some(x@[0] as u64) } else { None },
        _ => None,
    }
}

/// Two fields whose byte, short or long values start with the same number
/// yield the same unsigned-integer attribute, whatever the width they were
/// stored in.
pub proof fn lemma_uint_width_independent(
    tag: Tag,
    f1: RawField,
    f2: RawField,
    d1: Option<i64>,
    d2: Option<i64>,
    n: u64,
)
    requires
        first_uint(f1.value) == Some(n),
        first_uint(f2.value) == Some(n),
    ensures
        value_of(tag, f1, d1) == Some(ValueView::UInt(n)),
        value_of(tag, f2, d2) == Some(ValueView::UInt(n)),
{
}

proof fn lemma_put_grows(s: Seq<Entry>, k: Seq<char>, v: ValueView)
    ensures
        put(s, k, v).len() >= s.len(),
        put(s, k, v).len() > 0,
{
}

proof fn lemma_add_grows(s: Seq<Entry>, tag: Tag, f: RawField)
    ensures
        add_spec(s, tag, f).len() >= s.len(),
{
    match value_of(tag, f, date_of(tag, f)) {
        Some(v) => lemma_put_grows(s, crate::classify::attribute_name(tag), v),
        None => {},
    }
}

proof fn lemma_upto_empty(found: Seq<Option<RawField>>, n: nat)
    requires
        n <= found.len(),
        forall|i: int| 0 <= i < found.len() ==> found[i].is_none(),
    ensures
        section_upto(found, n) == Seq::<Entry>::empty(),
    decreases n,
{
    if n > 0 {
        lemma_upto_empty(found, (n - 1) as nat);
    }
}

proof fn lemma_upto_nonempty(found: Seq<Option<RawField>>, n: nat, i: int)
    requires
        n <= found.len(),
        n <= interest_tags().len(),
        0 <= i < n,
        found[i] is Some,
        value_of(interest_tags()[i], found[i]->0, date_of(interest_tags()[i], found[i]->0)) is Some,
    ensures
        section_upto(found, n).len() > 0,
    decreases n,
{
    let prev = section_upto(found, (n - 1) as nat);
    if i == n - 1 {
        let f = found[i]->0;
        let tag = interest_tags()[i];
        let v = value_of(tag, f, date_of(tag, f))->0;
        lemma_put_grows(prev, crate::classify::attribute_name(tag), v);
    } else {
        lemma_upto_nonempty(found, (n - 1) as nat, i);
        match found[n - 1] {
            Some(f) => lemma_add_grows(prev, interest_tags()[n - 1], f),
            None => {},
        }
    }
}

/// Where no tag of the interest list is found in either section, the tree
/// is an empty primary container and no thumbnail container.
pub proof fn lemma_nothing_found(primary: Seq<Option<RawField>>, thumbnail: Seq<Option<RawField>>)
    requires
        one_per_tag(primary),
        one_per_tag(thumbnail),
        forall|i: int| 0 <= i < primary.len() ==> primary[i].is_none(),
        forall|i: int| 0 <= i < thumbnail.len() ==> thumbnail[i].is_none(),
    ensures
        tree_of(primary, thumbnail) == (Seq::<Entry>::empty(), None::<Seq<Entry>>),
{
    lemma_upto_empty(primary, primary.len());
    lemma_upto_empty(thumbnail, thumbnail.len());
}

/// Where a tag is found in the thumbnail section only, and its field yields
/// an attribute, the tree has a non-empty thumbnail container beside the
/// primary one.
pub proof fn lemma_thumbnail_only(primary: Seq<Option<RawField>>, thumbnail: Seq<Option<RawField>>, i: int)
    requires
        one_per_tag(primary),
        one_per_tag(thumbnail),
        0 <= i < interest_tags().len(),
        primary[i] is None,
        thumbnail[i] is Some,
        value_of(
            interest_tags()[i],
            thumbnail[i]->0,
            date_of(interest_tags()[i], thumbnail[i]->0),
        ) is Some,
    ensures
        tree_of(primary, thumbnail).1 is Some,
        tree_of(primary, thumbnail).1->0.len() > 0,
{
    lemma_upto_nonempty(thumbnail, thumbnail.len(), i);
}

} // verus!
