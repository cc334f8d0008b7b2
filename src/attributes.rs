use vstd::prelude::*;

verus! {

/// A set of named flags carried by a component (for example `"focused"`).
#[derive(Debug)]
pub struct Attributes {
    names: Vec<String>,
}

/// Whether one of `names` reads `n`.
pub open spec fn listed(names: Seq<String>, n: Seq<char>) -> bool {
    exists|i: int| 0 <= i < names.len() && #[trigger] names[i]@ == n
}

impl View for Attributes {
    type V = Set<Seq<char>>;

    closed spec fn view(&self) -> Set<Seq<char>> {
        Set::new(|n: Seq<char>| listed(self.names@, n))
    }
}

impl Attributes {
    /// An empty set of attributes.
    pub fn new() -> (r: Attributes)
        ensures
            r@ == Set::<Seq<char>>::empty(),
    {
        let r = Attributes { names: Vec::new() };
        assert(r@ =~= Set::<Seq<char>>::empty());
        r
    }

    /// Whether the set holds `name`.
    pub fn contains(&self, name: &str) -> (r: bool)
        ensures
            r == self@.contains(name@),
    {
        let key = String::from_str(name);
        let mut i: usize = 0;
        while i < self.names.len()
            invariant
                0 <= i <= self.names@.len(),
                key@ == name@,
                forall|j: int| 0 <= j < i ==> #[trigger] self.names@[j]@ != name@,
            decreases self.names@.len() - i,
        {
            if self.names[i] == key {
                assert(self.names@[i as int]@ == name@);
                return true;
            }
            i += 1;
        }
        false
    }

    /// Adds `name` to the set.
    pub fn insert(&mut self, name: &str)
        ensures
            final(self)@ == old(self)@.insert(name@),
    {
        if !self.contains(name) {
            let ghost before = self.names@;
            self.names.push(String::from_str(name));
            assert forall|n: Seq<char>| listed(self.names@, n) == #[trigger] old(self)@.insert(name@).contains(n) by {
                if n == name@ {
                    assert(self.names@[before.len() as int]@ == n);
                } else if listed(before, n) {
                    let j = choose|j: int| 0 <= j < before.len() && #[trigger] before[j]@ == n;
                    assert(self.names@[j]@ == n);
                } else if listed(self.names@, n) {
                    let j = choose|j: int| 0 <= j < self.names@.len() && #[trigger] self.names@[j]@ == n;
                    assert(before[j]@ == n);
                }
            }
            assert(self@ =~= old(self)@.insert(name@));
        } else {
            assert(self@ =~= old(self)@.insert(name@));
        }
    }

    /// Takes `name` out of the set.
    pub fn remove(&mut self, name: &str)
        ensures
            final(self)@ == old(self)@.remove(name@),
    {
        let key = String::from_str(name);
        let mut kept: Vec<String> = Vec::new();
        let mut i: usize = 0;
        while i < self.names.len()
            invariant
                0 <= i <= self.names@.len(),
                key@ == name@,
                self.names@ == old(self).names@,
                forall|n: Seq<char>| #[trigger] listed(kept@, n) <==> (n != name@ && listed(self.names@.take(i as int), n)),
            decreases self.names@.len() - i,
        {
            let ghost prev = kept@;
            let ghost upto = self.names@.take(i as int);
            let ghost next = self.names@.take(i + 1);
            assert(next == upto.push(self.names@[i as int]));
            if !(self.names[i] == key) {
                let s = self.names[i].clone();
                kept.push(s);
                assert(kept@ == prev.push(self.names@[i as int]));
            }
            assert forall|n: Seq<char>| #[trigger] listed(kept@, n) <==> (n != name@ && listed(next, n)) by {
                if listed(kept@, n) {
                    let j = choose|j: int| 0 <= j < kept@.len() && #[trigger] kept@[j]@ == n;
                    if j < prev.len() {
                        assert(prev[j]@ == n);
                        assert(listed(prev, n));
                        let k = choose|k: int| 0 <= k < upto.len() && #[trigger] upto[k]@ == n;
                        assert(next[k]@ == n);
                    } else {
                        assert(next[i as int]@ == n);
                    }
                }
                if n != name@ && listed(next, n) {
                    let j = choose|j: int| 0 <= j < next.len() && #[trigger] next[j]@ == n;
                    if j < i {
                        assert(upto[j]@ == n);
                        assert(listed(upto, n));
                        assert(listed(prev, n));
                        let k = choose|k: int| 0 <= k < prev.len() && #[trigger] prev[k]@ == n;
                        assert(kept@[k]@ == n);
                    } else {
                        assert(kept@[prev.len() as int]@ == n);
                    }
                }
            }
            i += 1;
        }
        assert(self.names@.take(i as int) == self.names@);
        self.names = kept;
        assert(self@ =~= old(self)@.remove(name@));
    }
}

impl Default for Attributes {
    fn default() -> (r: Attributes)
        ensures
            r@ == Set::<Seq<char>>::empty(),
    {
        Attributes::new()
    }
}

} // verus!
