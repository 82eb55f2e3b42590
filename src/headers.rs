//! An ordered list of header fields, as bytes.
//!
//! Header names are matched as HTTP matches them: ASCII letters compare without
//! regard to case. Values are compared byte for byte.

use vstd::prelude::*;

use crate::octets::copy_bytes;

verus! {

/// One header field: a name and its value.
pub struct HeaderField {
    pub name: Vec<u8>,
    pub value: Vec<u8>,
}

impl View for HeaderField {
    type V = (Seq<u8>, Seq<u8>);

    open spec fn view(&self) -> (Seq<u8>, Seq<u8>) {
        (self.name@, self.value@)
    }
}

/// What a header list holds: its fields in order.
pub type Fields = Seq<(Seq<u8>, Seq<u8>)>;

/// An ASCII byte in lower case; other bytes are kept.
pub open spec fn ascii_lower(b: u8) -> u8 {
    if 65 <= b <= 90 {
        (b + 32) as u8
    } else {
        b
    }
}

/// `a` and `b` are the same header name: equal up to the case of ASCII letters.
pub open spec fn same_name(a: Seq<u8>, b: Seq<u8>) -> bool {
    &&& a.len() == b.len()
    &&& forall|i: int| 0 <= i < a.len() ==> ascii_lower(#[trigger] a[i]) == ascii_lower(b[i])
}

/// The value of the first field named `name`, as a map lookup on the engine's
/// header map returns it.
pub open spec fn first_value(h: Fields, name: Seq<u8>) -> Option<Seq<u8>>
    decreases h.len(),
{
    if h.len() == 0 {
        None
    } else if same_name(h[0].0, name) {
        Some(h[0].1)
    } else {
        first_value(h.drop_first(), name)
    }
}

/// Some field of `h` is named `name`.
pub open spec fn has_name(h: Fields, name: Seq<u8>) -> bool {
    exists|i: int| 0 <= i < h.len() && same_name(#[trigger] h[i].0, name)
}

/// The fields of `h` whose name no field of `added` has, in their order.
pub open spec fn without_names(h: Fields, added: Fields) -> Fields
    decreases h.len(),
{
    if h.len() == 0 {
        h
    } else if has_name(added, h.last().0) {
        without_names(h.drop_last(), added)
    } else {
        without_names(h.drop_last(), added).push(h.last())
    }
}

/// `h` after setting the fields of `added`: every field of `added` is kept, in
/// order and with repeated names, after the fields of `h` whose names `added`
/// does not set.
pub open spec fn set_fields(h: Fields, added: Fields) -> Fields {
    without_names(h, added) + added
}

/// Setting fields keeps every one of them, repeated names included, and every
/// earlier field whose name they do not set.
pub proof fn lemma_set_fields_keeps(h: Fields, added: Fields)
    ensures
        forall|i: int| 0 <= i < added.len() ==> set_fields(h, added).contains(#[trigger] added[i]),
        forall|i: int|
            0 <= i < h.len() && !has_name(added, #[trigger] h[i].0) ==> set_fields(h, added).contains(h[i]),
{
    let r = set_fields(h, added);
    let w = without_names(h, added);
    assert forall|i: int| 0 <= i < added.len() implies r.contains(#[trigger] added[i]) by {
        assert(r[w.len() + i] == added[i]);
    }
    assert forall|i: int| 0 <= i < h.len() && !has_name(added, #[trigger] h[i].0) implies r.contains(h[i]) by {
        lemma_without_names_keeps(h, added, i);
        let k = choose|k: int| 0 <= k < w.len() && w[k] == h[i];
        assert(r[k] == h[i]);
    }
}

proof fn lemma_without_names_keeps(h: Fields, added: Fields, i: int)
    requires
        0 <= i < h.len(),
        !has_name(added, h[i].0),
    ensures
        without_names(h, added).contains(h[i]),
    decreases h.len(),
{
    let t = h.drop_last();
    let w = without_names(t, added);
    if i == h.len() - 1 {
        assert(w.push(h.last())[w.len() as int] == h[i]);
    } else {
        assert(t[i] == h[i]);
        lemma_without_names_keeps(t, added, i);
        let k = choose|k: int| 0 <= k < w.len() && w[k] == h[i];
        if !has_name(added, h.last().0) {
            assert(w.push(h.last())[k] == h[i]);
        }
    }
}

/// Whether `a` and `b` are the same header name.
pub fn names_equal(a: &[u8], b: &[u8]) -> (r: bool)
    ensures
        r == same_name(a@, b@),
{
    if a.len() != b.len() {
        return false;
    }
    let mut i: usize = 0;
    while i < a.len()
        invariant
            a@.len() == b@.len(),
            0 <= i <= a@.len(),
            forall|j: int| 0 <= j < i ==> ascii_lower(#[trigger] a@[j]) == ascii_lower(b@[j]),
        decreases a@.len() - i,
    {
        let x = a[i];
        let y = b[i];
        let lx = if 65 <= x && x <= 90 { x + 32 } else { x };
        let ly = if 65 <= y && y <= 90 { y + 32 } else { y };
        if lx != ly {
            return false;
        }
        i = i + 1;
    }
    true
}

/// A header list: the fields in the order they are sent.
pub struct HeaderList {
    pub fields: Vec<HeaderField>,
}

impl View for HeaderList {
    type V = Fields;

    open spec fn view(&self) -> Fields {
        self.fields@.map_values(|f: HeaderField| f@)
    }
}

impl HeaderList {
    /// An empty list.
    pub fn new() -> (r: HeaderList)
        ensures
            r@ == Seq::<(Seq<u8>, Seq<u8>)>::empty(),
    {
        let r = HeaderList { fields: Vec::new() };
        assert(r@ =~= Seq::<(Seq<u8>, Seq<u8>)>::empty());
        r
    }

    /// The number of fields.
    pub fn len(&self) -> (r: usize)
        ensures
            r == self@.len(),
    {
        self.fields.len()
    }

    /// Appends a field, keeping every earlier one.
    pub fn push(&mut self, name: Vec<u8>, value: Vec<u8>)
        ensures
            final(self)@ == old(self)@.push((name@, value@)),
    {
        let ghost before = self@;
        self.fields.push(HeaderField { name, value });
        assert(self@ =~= before.push((name@, value@)));
    }

    /// Appends a copy of every field of `other`, in order.
    pub fn append_all(&mut self, other: &HeaderList)
        ensures
            final(self)@ == old(self)@ + other@,
    {
        let ghost before = self@;
        let mut i: usize = 0;
        while i < other.fields.len()
            invariant
                0 <= i <= other@.len(),
                other@.len() == other.fields@.len(),
                self@ == before + other@.subrange(0, i as int),
            decreases other@.len() - i,
        {
            let f = &other.fields[i];
            let ghost prev = self@;
            self.push(copy_bytes(f.name.as_slice()), copy_bytes(f.value.as_slice()));
            assert(other@[i as int] == f@);
            assert(other@.subrange(0, i + 1) =~= other@.subrange(0, i as int).push(other@[i as int]));
            assert(self@ =~= before + other@.subrange(0, i + 1));
            i = i + 1;
        }
        assert(other@.subrange(0, other@.len() as int) =~= other@);
    }

    /// A copy of the list.
    pub fn duplicate(&self) -> (r: HeaderList)
        ensures
            r@ == self@,
    {
        let mut r = HeaderList::new();
        r.append_all(self);
        assert(r@ =~= self@);
        r
    }

    /// The value of the first field named `name`.
    pub fn get(&self, name: &[u8]) -> (r: Option<&Vec<u8>>)
        ensures
            match r {
                Some(v) => first_value(self@, name@) == Some(v@),
                None => first_value(self@, name@).is_none(),
            },
    {
        assert(self@.subrange(0, self@.len() as int) =~= self@);
        let mut i: usize = 0;
        while i < self.fields.len()
            invariant
                0 <= i <= self@.len(),
                self@.len() == self.fields@.len(),
                first_value(self@, name@) == first_value(self@.subrange(i as int, self@.len() as int), name@),
            decreases self@.len() - i,
        {
            let ghost rest = self@.subrange(i as int, self@.len() as int);
            assert(rest[0] == self.fields@[i as int]@);
            if names_equal(self.fields[i].name.as_slice(), name) {
                return Some(&self.fields[i].value);
            }
            assert(rest.drop_first() =~= self@.subrange(i + 1, self@.len() as int));
            i = i + 1;
        }
        None
    }

    /// Whether some field is named `name`.
    pub fn has_name(&self, name: &[u8]) -> (r: bool)
        ensures
            r == has_name(self@, name@),
    {
        let mut i: usize = 0;
        while i < self.fields.len()
            invariant
                0 <= i <= self@.len(),
                self@.len() == self.fields@.len(),
                forall|j: int| 0 <= j < i ==> !same_name(#[trigger] self@[j].0, name@),
            decreases self@.len() - i,
        {
            assert(self@[i as int] == self.fields@[i as int]@);
            if names_equal(self.fields[i].name.as_slice(), name) {
                assert(same_name(self@[i as int].0, name@));
                return true;
            }
            i = i + 1;
        }
        false
    }

    /// Sets the fields of `other`: every field of `other` is appended, in
    /// order, and the earlier fields whose names `other` sets are dropped.
    pub fn insert_all(&mut self, other: &HeaderList)
        ensures
            final(self)@ == set_fields(old(self)@, other@),
    {
        let ghost before = self@;
        let mut kept = HeaderList::new();
        let mut i: usize = 0;
        while i < self.fields.len()
            invariant
                0 <= i <= before.len(),
                self@ == before,
                before.len() == self.fields@.len(),
                kept@ == without_names(before.subrange(0, i as int), other@),
            decreases before.len() - i,
        {
            let ghost pre = before.subrange(0, i as int);
            let ghost next = before.subrange(0, i + 1);
            assert(next.drop_last() =~= pre);
            assert(next.last() == self.fields@[i as int]@);
            let f = &self.fields[i];
            if !other.has_name(f.name.as_slice()) {
                kept.push(copy_bytes(f.name.as_slice()), copy_bytes(f.value.as_slice()));
            }
            i = i + 1;
        }
        assert(before.subrange(0, before.len() as int) =~= before);
        kept.append_all(other);
        *self = kept;
    }
}

} // verus!
