use vstd::prelude::*;

verus! {

/// A typed value attached to a component under a name.
#[derive(Debug)]
pub enum Property {
    /// a string
    PStr(String),
    /// a half-open range `start..end`
    PRng { start: u64, end: u64 },
    /// a character
    PChr(char),
    /// a signed integer
    PInt(i64),
    /// an unsigned integer
    PUInt(u64),
    /// a boolean
    PBool(bool),
    /// a list of values
    PVec(Vec<Property>),
    /// a nested property bag
    PMap(Properties),
}

impl Property {
    pub fn is_str(&self) -> (r: bool)
        ensures
            r == (*self is PStr),
    {
        matches!(self, Property::PStr(_))
    }

    pub fn is_range(&self) -> (r: bool)
        ensures
            r == (*self is PRng),
    {
        matches!(self, Property::PRng { .. })
    }

    pub fn is_char(&self) -> (r: bool)
        ensures
            r == (*self is PChr),
    {
        matches!(self, Property::PChr(_))
    }

    pub fn is_int(&self) -> (r: bool)
        ensures
            r == (*self is PInt),
    {
        matches!(self, Property::PInt(_))
    }

    pub fn is_uint(&self) -> (r: bool)
        ensures
            r == (*self is PUInt),
    {
        matches!(self, Property::PUInt(_))
    }

    pub fn is_bool(&self) -> (r: bool)
        ensures
            r == (*self is PBool),
    {
        matches!(self, Property::PBool(_))
    }

    pub fn is_vec(&self) -> (r: bool)
        ensures
            r == (*self is PVec),
    {
        matches!(self, Property::PVec(_))
    }

    pub fn is_map(&self) -> (r: bool)
        ensures
            r == (*self is PMap),
    {
        matches!(self, Property::PMap(_))
    }
}

impl From<String> for Property {
    fn from(value: String) -> (r: Property) {
        Property::PStr(value)
    }
}

impl vstd::std_specs::convert::FromSpecImpl<String> for Property {
    open spec fn obeys_from_spec() -> bool {
        true
    }

    open spec fn from_spec(value: String) -> Property {
        Property::PStr(value)
    }
}

impl From<[u64; 2]> for Property {
    /// A range from its start and end.
    fn from(value: [u64; 2]) -> (r: Property) {
        Property::PRng { start: value[0], end: value[1] }
    }
}

impl vstd::std_specs::convert::FromSpecImpl<[u64; 2]> for Property {
    open spec fn obeys_from_spec() -> bool {
        true
    }

    open spec fn from_spec(value: [u64; 2]) -> Property {
        Property::PRng { start: value[0], end: value[1] }
    }
}

impl From<char> for Property {
    fn from(value: char) -> (r: Property) {
        Property::PChr(value)
    }
}

impl vstd::std_specs::convert::FromSpecImpl<char> for Property {
    open spec fn obeys_from_spec() -> bool {
        true
    }

    open spec fn from_spec(value: char) -> Property {
        Property::PChr(value)
    }
}

impl From<i64> for Property {
    fn from(value: i64) -> (r: Property) {
        Property::PInt(value)
    }
}

impl vstd::std_specs::convert::FromSpecImpl<i64> for Property {
    open spec fn obeys_from_spec() -> bool {
        true
    }

    open spec fn from_spec(value: i64) -> Property {
        Property::PInt(value)
    }
}

impl From<u64> for Property {
    fn from(value: u64) -> (r: Property) {
        Property::PUInt(value)
    }
}

impl vstd::std_specs::convert::FromSpecImpl<u64> for Property {
    open spec fn obeys_from_spec() -> bool {
        true
    }

    open spec fn from_spec(value: u64) -> Property {
        Property::PUInt(value)
    }
}

impl From<bool> for Property {
    fn from(value: bool) -> (r: Property) {
        Property::PBool(value)
    }
}

impl vstd::std_specs::convert::FromSpecImpl<bool> for Property {
    open spec fn obeys_from_spec() -> bool {
        true
    }

    open spec fn from_spec(value: bool) -> Property {
        Property::PBool(value)
    }
}

impl From<Vec<Property>> for Property {
    fn from(value: Vec<Property>) -> (r: Property) {
        Property::PVec(value)
    }
}

impl vstd::std_specs::convert::FromSpecImpl<Vec<Property>> for Property {
    open spec fn obeys_from_spec() -> bool {
        true
    }

    open spec fn from_spec(value: Vec<Property>) -> Property {
        Property::PVec(value)
    }
}

impl From<Properties> for Property {
    fn from(value: Properties) -> (r: Property) {
        Property::PMap(value)
    }
}

impl vstd::std_specs::convert::FromSpecImpl<Properties> for Property {
    open spec fn obeys_from_spec() -> bool {
        true
    }

    open spec fn from_spec(value: Properties) -> Property {
        Property::PMap(value)
    }
}

/// A property bag: values under distinct names, in insertion order.
#[derive(Debug)]
pub struct Properties {
    entries: Vec<(String, Property)>,
}

/// Whether one of the entries is named `k`.
pub open spec fn has_key(entries: Seq<(String, Property)>, k: Seq<char>) -> bool {
    exists|i: int| 0 <= i < entries.len() && #[trigger] entries[i].0@ == k
}

impl Properties {
    /// No two entries share a name.
    #[verifier::type_invariant]
    closed spec fn keys_unique(&self) -> bool {
        forall|i: int, j: int|
            0 <= i < j < self.entries@.len() ==> #[trigger] self.entries@[i].0@
                != #[trigger] self.entries@[j].0@
    }

    /// The position of the entry named `k`.
    closed spec fn index_of(&self, k: Seq<char>) -> int {
        choose|i: int| 0 <= i < self.entries@.len() && #[trigger] self.entries@[i].0@ == k
    }

    /// The names of the entries, in insertion order.
    pub closed spec fn spec_keys(&self) -> Seq<Seq<char>> {
        self.entries@.map_values(|e: (String, Property)| e.0@)
    }

    /// Whether a value stands under the name `k`.
    pub open spec fn spec_contains(&self, k: Seq<char>) -> bool {
        self.spec_keys().contains(k)
    }

    /// The entry at `i` is the one named by its name.
    proof fn lemma_index_of(&self, i: int)
        requires
            0 <= i < self.entries@.len(),
            self.keys_unique(),
        ensures
            self.index_of(self.entries@[i].0@) == i,
    {
        let k = self.entries@[i].0@;
        let j = self.index_of(k);
        assert(0 <= j < self.entries@.len() && self.entries@[j].0@ == k);
        if j < i {
            assert(self.entries@[j].0@ != self.entries@[i].0@);
        } else if i < j {
            assert(self.entries@[i].0@ != self.entries@[j].0@);
        }
    }

    /// An empty bag.
    pub fn new() -> (r: Properties)
        ensures
            r@ == Map::<Seq<char>, Property>::empty(),
            r.spec_keys() == Seq::<Seq<char>>::empty(),
    {
        let r = Properties { entries: Vec::new() };
        assert(r@ =~= Map::<Seq<char>, Property>::empty());
        assert(r.spec_keys() =~= Seq::<Seq<char>>::empty());
        r
    }

    /// The number of entries.
    pub fn len(&self) -> (r: usize)
        ensures
            r == self.spec_keys().len(),
    {
        self.entries.len()
    }

    /// The position of the entry named `k`.
    fn find(&self, k: &str) -> (r: Option<usize>)
        ensures
            match r {
                Some(i) => i < self.entries@.len() && self.entries@[i as int].0@ == k@,
                None => !has_key(self.entries@, k@),
            },
    {
        let key = String::from_str(k);
        let mut i: usize = 0;
        while i < self.entries.len()
            invariant
                0 <= i <= self.entries@.len(),
                key@ == k@,
                forall|j: int| 0 <= j < i ==> #[trigger] self.entries@[j].0@ != k@,
            decreases self.entries@.len() - i,
        {
            if self.entries[i].0 == key {
                return Some(i);
            }
            i += 1;
        }
        None
    }

    /// Whether a value stands under the name `k`.
    pub fn contains(&self, k: &str) -> (r: bool)
        ensures
            r == self.spec_contains(k@),
            r == self@.contains_key(k@),
    {
        let r = self.find(k);
        proof {
            match r {
                Some(i) => {
                    assert(self.spec_keys()[i as int] == k@);
                },
                None => {
                    if self.spec_keys().contains(k@) {
                        let j = choose|j: int|
                            0 <= j < self.spec_keys().len() && self.spec_keys()[j] == k@;
                        assert(self.entries@[j].0@ == k@);
                    }
                },
            }
        }
        r.is_some()
    }

    /// The value under the name `k`.
    pub fn grab_ref(&self, k: &str) -> (r: Option<&Property>)
        ensures
            match r {
                Some(v) => self@.contains_key(k@) && *v == self@[k@],
                None => !self@.contains_key(k@),
            },
    {
        match self.find(k) {
            Some(i) => {
                proof {
                    use_type_invariant(self);
                    self.lemma_index_of(i as int);
                }
                Some(&self.entries[i].1)
            },
            None => None,
        }
    }

    /// Puts `v` under the name `k`, in place of any value there, and hands
    /// the replaced value back.
    pub fn assign(&mut self, k: &str, v: Property) -> (r: Option<Property>)
        ensures
            final(self)@ == old(self)@.insert(k@, v),
            match r {
                Some(p) => old(self)@.contains_key(k@) && p == old(self)@[k@],
                None => !old(self)@.contains_key(k@),
            },
    {
        proof {
            use_type_invariant(&*self);
        }
        let found = self.find(k);
        let ghost before = *self;
        let mut taken = Properties::new();
        std::mem::swap(self, &mut taken);
        proof {
            use_type_invariant(&taken);
        }
        let Properties { entries } = taken;
        let mut entries = entries;
        match found {
            Some(i) => {
                proof {
                    before.lemma_index_of(i as int);
                }
                let mut v = v;
                std::mem::swap(&mut entries[i].1, &mut v);
                proof {
                    assert forall|a: int, b: int|
                        0 <= a < b < entries@.len() implies #[trigger] entries@[a].0@
                        != #[trigger] entries@[b].0@ by {
                        assert(before.entries@[a].0@ != before.entries@[b].0@);
                    }
                }
                *self = Properties { entries };
                proof {
                    assert(self.entries@ == before.entries@.update(i as int, (before.entries@[i as int].0, self.entries@[i as int].1)));
                    assert forall|a: int, b: int|
                        0 <= a < b < self.entries@.len() implies #[trigger] self.entries@[a].0@
                        != #[trigger] self.entries@[b].0@ by {
                        assert(before.entries@[a].0@ != before.entries@[b].0@);
                    }
                    assert(self.keys_unique());
                    self.lemma_index_of(i as int);
                    assert forall|q: Seq<char>| #[trigger] self@.contains_key(q) == before@.insert(k@, self.entries@[i as int].1).contains_key(q) by {
                        if has_key(before.entries@, q) {
                            let j = choose|j: int| 0 <= j < before.entries@.len() && #[trigger] before.entries@[j].0@ == q;
                            assert(self.entries@[j].0@ == q);
                        }
                        if has_key(self.entries@, q) {
                            let j = choose|j: int| 0 <= j < self.entries@.len() && #[trigger] self.entries@[j].0@ == q;
                            assert(before.entries@[j].0@ == q);
                        }
                    }
                    assert forall|q: Seq<char>| #[trigger] self@.contains_key(q) implies self@[q] == before@.insert(k@, self.entries@[i as int].1)[q] by {
                        let j = choose|j: int| 0 <= j < self.entries@.len() && #[trigger] self.entries@[j].0@ == q;
                        self.lemma_index_of(j);
                        before.lemma_index_of(j);
                    }
                    assert(self@ =~= before@.insert(k@, self.entries@[i as int].1));
                }
                Some(v)
            },
            None => {
                entries.push((String::from_str(k), v));
                proof {
                    let n = before.entries@.len() as int;
                    assert forall|a: int, b: int|
                        0 <= a < b < entries@.len() implies #[trigger] entries@[a].0@
                        != #[trigger] entries@[b].0@ by {
                        if b == n {
                            assert(before.entries@[a].0@ != k@);
                        } else {
                            assert(before.entries@[a].0@ != before.entries@[b].0@);
                        }
                    }
                }
                *self = Properties { entries };
                proof {
                    let n = before.entries@.len() as int;
                    assert(self.keys_unique());
                    assert forall|q: Seq<char>| #[trigger] self@.contains_key(q) == before@.insert(k@, v).contains_key(q) by {
                        if q == k@ {
                            assert(self.entries@[n].0@ == q);
                        }
                        if has_key(before.entries@, q) {
                            let j = choose|j: int| 0 <= j < before.entries@.len() && #[trigger] before.entries@[j].0@ == q;
                            assert(self.entries@[j].0@ == q);
                        }
                        if has_key(self.entries@, q) && q != k@ {
                            let j = choose|j: int| 0 <= j < self.entries@.len() && #[trigger] self.entries@[j].0@ == q;
                            assert(j < n);
                            assert(before.entries@[j].0@ == q);
                        }
                    }
                    assert forall|q: Seq<char>| #[trigger] self@.contains_key(q) implies self@[q] == before@.insert(k@, v)[q] by {
                        let j = choose|j: int| 0 <= j < self.entries@.len() && #[trigger] self.entries@[j].0@ == q;
                        self.lemma_index_of(j);
                        if j < n {
                            before.lemma_index_of(j);
                        }
                    }
                    assert(self@ =~= before@.insert(k@, v));
                }
                None
            },
        }
    }

    /// Puts `value` under the name `key`; see `assign`.
    pub fn put(&mut self, key: String, value: Property) -> (r: Option<Property>)
        ensures
            final(self)@ == old(self)@.insert(key@, value),
            match r {
                Some(p) => old(self)@.contains_key(key@) && p == old(self)@[key@],
                None => !old(self)@.contains_key(key@),
            },
    {
        self.assign(key.as_str(), value)
    }

    /// Takes the value under the name `k` out of the bag.
    pub fn discard(&mut self, k: &str) -> (r: Option<Property>)
        ensures
            final(self)@ == old(self)@.remove(k@),
            match r {
                Some(p) => old(self)@.contains_key(k@) && p == old(self)@[k@],
                None => !old(self)@.contains_key(k@),
            },
    {
        proof {
            use_type_invariant(&*self);
        }
        match self.find(k) {
            Some(i) => {
                let ghost before = *self;
                proof {
                    before.lemma_index_of(i as int);
                }
                let mut taken = Properties::new();
                std::mem::swap(self, &mut taken);
                let Properties { entries } = taken;
                let mut entries = entries;
                let e = entries.remove(i);
                proof {
                    let o = before.entries@;
                    let shift = |a: int| if a < i { a } else { a + 1 };
                    assert forall|a: int| 0 <= a < entries@.len() implies #[trigger] entries@[a] == o[shift(a)] by {}
                    assert forall|a: int, b: int|
                        0 <= a < b < entries@.len() implies #[trigger] entries@[a].0@
                        != #[trigger] entries@[b].0@ by {
                        assert(o[shift(a)].0@ != o[shift(b)].0@);
                    }
                }
                *self = Properties { entries };
                proof {
                    let o = before.entries@;
                    let shift = |a: int| if a < i { a } else { a + 1 };
                    assert forall|a: int| 0 <= a < self.entries@.len() implies #[trigger] self.entries@[a] == o[shift(a)] by {}
                    assert(self.keys_unique());
                    assert forall|q: Seq<char>| #[trigger] self@.contains_key(q) == before@.remove(k@).contains_key(q) by {
                        if has_key(self.entries@, q) {
                            let j = choose|j: int| 0 <= j < self.entries@.len() && #[trigger] self.entries@[j].0@ == q;
                            assert(o[shift(j)].0@ == q);
                            assert(shift(j) != i);
                        }
                        if has_key(o, q) && q != k@ {
                            let j = choose|j: int| 0 <= j < o.len() && #[trigger] o[j].0@ == q;
                            assert(j != i);
                            let a = if j < i { j } else { j - 1 };
                            assert(self.entries@[a].0@ == q);
                        }
                    }
                    assert forall|q: Seq<char>| #[trigger] self@.contains_key(q) implies self@[q] == before@.remove(k@)[q] by {
                        let j = choose|j: int| 0 <= j < self.entries@.len() && #[trigger] self.entries@[j].0@ == q;
                        self.lemma_index_of(j);
                        before.lemma_index_of(shift(j));
                    }
                    assert(self@ =~= before@.remove(k@));
                }
                Some(e.1)
            },
            None => {
                proof {
                    assert(self@ =~= old(self)@.remove(k@));
                }
                None
            },
        }
    }
}

impl View for Properties {
    type V = Map<Seq<char>, Property>;

    closed spec fn view(&self) -> Map<Seq<char>, Property> {
        Map::new(
            |k: Seq<char>| has_key(self.entries@, k),
            |k: Seq<char>| self.entries@[self.index_of(k)].1,
        )
    }
}

impl Default for Properties {
    fn default() -> (r: Properties)
        ensures
            r@ == Map::<Seq<char>, Property>::empty(),
    {
        Properties::new()
    }
}

} // verus!
