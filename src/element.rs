use vstd::prelude::*;

verus! {

/// The value of the first attribute named `key` in `attrs`, if there is one.
pub open spec fn attribute_of(attrs: Seq<(Seq<char>, Seq<char>)>, key: Seq<char>) -> Option<Seq<char>>
    decreases attrs.len(),
{
    if attrs.len() == 0 {
        None
    } else if attrs[0].0 == key {
        Some(attrs[0].1)
    } else {
        attribute_of(attrs.drop_first(), key)
    }
}

/// Abstract value of an [`Element`]: its namespace, its local name and its
/// attributes in order.
pub ghost struct ElementView {
    pub namespace: Option<Seq<char>>,
    pub name: Seq<char>,
    pub attributes: Seq<(Seq<char>, Seq<char>)>,
}

/// A generic XML element as handed over by a parser: a resolved namespace,
/// a local tag name and its attributes as (name, value) pairs.
///
/// A parser hands over an element whose attribute names are distinct, which
/// is what [`Element::wf`] states. Lookups do not rely on it: where a name
/// repeats all the same, the first pair with that name is the one that counts.
pub struct Element {
    pub namespace: Option<String>,
    pub name: String,
    pub attributes: Vec<(String, String)>,
}

impl Element {
    /// Well-formedness: no two attributes share a name.
    pub open spec fn wf(&self) -> bool {
        forall|i: int, j: int|
            0 <= i < j < self@.attributes.len() ==> #[trigger] self@.attributes[i].0
                != #[trigger] self@.attributes[j].0
    }
}

impl View for Element {
    type V = ElementView;

    open spec fn view(&self) -> ElementView {
        ElementView {
            namespace: match self.namespace {
                Some(ns) => Some(ns@),
                None => None,
            },
            name: self.name@,
            attributes: self.attributes@.map_values(|p: (String, String)| (p.0@, p.1@)),
        }
    }
}

/// Whether two strings hold the same characters.
pub fn text_eq(a: &str, b: &str) -> (r: bool)
    ensures
        r == (a@ == b@),
{
    let n = a.unicode_len();
    if n != b.unicode_len() {
        return false;
    }
    let mut i: usize = 0;
    while i < n
        invariant
            n == a@.len(),
            n == b@.len(),
            i <= n,
            a@.subrange(0, i as int) == b@.subrange(0, i as int),
        decreases n - i,
    {
        if a.get_char(i) != b.get_char(i) {
            return false;
        }
        assert(a@.subrange(0, i + 1) == a@.subrange(0, i as int).push(a@[i as int]));
        assert(b@.subrange(0, i + 1) == b@.subrange(0, i as int).push(b@[i as int]));
        i = i + 1;
    }
    assert(a@ == a@.subrange(0, n as int));
    assert(b@ == b@.subrange(0, n as int));
    true
}

impl Element {
    /// The value of the attribute named `key`, if the element has one.
    pub fn attribute(&self, key: &str) -> (r: Option<&String>)
        ensures
            match r {
                Some(v) => attribute_of(self@.attributes, key@) == Some(v@),
                None => attribute_of(self@.attributes, key@) is None,
            },
    {
        let ghost attrs = self@.attributes;
        let mut i: usize = 0;
        assert(attrs.skip(0) == attrs);
        while i < self.attributes.len()
            invariant
                attrs == self@.attributes,
                i <= self.attributes.len(),
                attribute_of(attrs, key@) == attribute_of(attrs.skip(i as int), key@),
            decreases self.attributes.len() - i,
        {
            let pair = &self.attributes[i];
            assert(attrs.skip(i as int)[0] == (pair.0@, pair.1@));
            if text_eq(pair.0.as_str(), key) {
                return Some(&pair.1);
            }
            assert(attrs.skip(i as int).drop_first() == attrs.skip(i + 1));
            i = i + 1;
        }
        assert(attrs.skip(i as int).len() == 0);
        None
    }
}

} // verus!
