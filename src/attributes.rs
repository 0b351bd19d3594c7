use vstd::prelude::*;

verus! {

/// A typed attribute value.
///
/// A rational is kept as its numerator and denominator; turning it into a
/// floating-point number is left to whoever renders the tree. A timestamp is
/// a count of seconds since 1970-01-01T00:00:00Z.
#[derive(Clone, Debug, PartialEq, Eq)]
pub enum AttributeValue {
    UInt(u64),
    Rational(i64, i64),
    Timestamp(i64),
    Str(String),
}

/// The mathematical value of an [`AttributeValue`].
pub enum ValueView {
    UInt(u64),
    Rational(i64, i64),
    Timestamp(i64),
    Str(Seq<char>),
}

impl View for AttributeValue {
    type V = ValueView;

    open spec fn view(&self) -> ValueView {
        match self {
            AttributeValue::UInt(n) => ValueView::UInt(*n),
            AttributeValue::Rational(n, d) => ValueView::Rational(*n, *d),
            AttributeValue::Timestamp(t) => ValueView::Timestamp(*t),
            AttributeValue::Str(s) => ValueView::Str(s@),
        }
    }
}

/// One named attribute, as seen in contracts.
pub type Entry = (Seq<char>, ValueView);

/// Whether no two entries share a name.
pub open spec fn unique_names(s: Seq<Entry>) -> bool {
    forall|i: int, j: int| 0 <= i < s.len() && 0 <= j < s.len() && i != j ==> s[i].0 != s[j].0
}

/// Whether some entry is named `k`.
pub open spec fn has_name(s: Seq<Entry>, k: Seq<char>) -> bool {
    exists|i: int| 0 <= i < s.len() && s[i].0 == k
}

/// `s` with the attribute `k` set to `v`: an entry already named `k` takes
/// the new value in place, otherwise the pair goes at the end.
pub open spec fn put(s: Seq<Entry>, k: Seq<char>, v: ValueView) -> Seq<Entry> {
    if has_name(s, k) {
        let i = choose|i: int| 0 <= i < s.len() && s[i].0 == k;
        s.update(i, (k, v))
    } else {
        s.push((k, v))
    }
}

/// An ordered mapping from attribute names to values, names unique.
#[derive(Clone, Debug)]
pub struct Attributes {
    entries: Vec<(String, AttributeValue)>,
}

impl View for Attributes {
    type V = Seq<Entry>;

    closed spec fn view(&self) -> Seq<Entry> {
        self.entries@.map_values(|e: (String, AttributeValue)| (e.0@, e.1@))
    }
}

impl Attributes {
    /// Whether the names are unique.
    pub open spec fn wf(&self) -> bool {
        unique_names(self@)
    }

    pub fn new() -> (r: Attributes)
        ensures
            r@ == Seq::<Entry>::empty(),
            r.wf(),
    {
        Attributes { entries: Vec::new() }
    }

    /// The number of attributes.
    pub fn count(&self) -> (r: usize)
        ensures
            r == self@.len(),
    {
        self.entries.len()
    }

    /// The entry at position `i`, in insertion order.
    pub fn get(&self, i: usize) -> (r: (&String, &AttributeValue))
        requires
            i < self@.len(),
        ensures
            (r.0@, r.1@) == self@[i as int],
    {
        let e = &self.entries[i];
        (&e.0, &e.1)
    }

    /// Sets the attribute `name` to `value`, in place if the name is taken.
    pub fn add_attribute(&mut self, name: String, value: AttributeValue)
        requires
            old(self).wf(),
        ensures
            final(self).wf(),
            final(self)@ == put(old(self)@, name@, value@),
    {
        let ghost k = name@;
        let ghost v = value@;
        let n = self.entries.len();
        let mut i: usize = 0;
        while i < n
            invariant
                n == self.entries.len(),
                i <= n,
                self == old(self),
                k == name@,
                v == value@,
                unique_names(self@),
                forall|j: int| 0 <= j < i ==> self@[j].0 != k,
            decreases n - i,
        {
            proof {
                assert(self@[i as int] == (self.entries@[i as int].0@, self.entries@[i as int].1@));
            }
            if self.entries[i].0.eq(&name) {
                proof {
                    assert(self@[i as int].0 == k);
                    assert(has_name(self@, k));
                    let c = choose|c: int| 0 <= c < self@.len() && self@[c].0 == k;
                    assert(c == i);
                }
                self.entries.set(i, (name, value));
                proof {
                    assert(self@ =~= put(old(self)@, k, v));
                }
                return;
            }
            i = i + 1;
        }
        proof {
            assert(!has_name(self@, k));
        }
        self.entries.push((name, value));
        proof {
            assert(self@ =~= put(old(self)@, k, v));
        }
    }
}

/// What one extraction yields: the primary image's attributes, and the
/// thumbnail's where it has any.
#[derive(Clone, Debug)]
pub struct ExifAttributes {
    pub primary: Attributes,
    pub thumbnail: Option<Attributes>,
}

impl View for ExifAttributes {
    type V = (Seq<Entry>, Option<Seq<Entry>>);

    open spec fn view(&self) -> (Seq<Entry>, Option<Seq<Entry>>) {
        (
            self.primary@,
            match &self.thumbnail {
                Some(t) => Some(t@),
                None => None,
            },
        )
    }
}

impl ExifAttributes {
    /// Both containers have unique names, and a thumbnail container is
    /// present only when it holds at least one attribute.
    pub open spec fn wf(&self) -> bool {
        &&& self.primary.wf()
        &&& match &self.thumbnail {
            Some(t) => t.wf() && t@.len() > 0,
            None => true,
        }
    }
}

} // verus!
