use vstd::prelude::*;

verus! {

/// Whether `k` is a candidate of the id sequence that starts at `start` and
/// steps by `step` (1, or 2 to keep a parity).
pub open spec fn in_class(k: int, start: int, step: int) -> bool {
    start <= k <= 255 && (step == 1 || k % 2 == start % 2)
}

/// `r` is the first candidate of the sequence `start, start + step, ...` that
/// `used` does not hold.
pub open spec fn is_first_free(used: Seq<u8>, start: int, step: int, r: int) -> bool {
    &&& in_class(r, start, step)
    &&& !used.contains(r as u8)
    &&& forall|k: int| in_class(k, start, step) && k < r ==> used.contains(k as u8)
}

/// Every candidate of the sequence `start, start + step, ...` up to 255 is
/// held by `used`.
pub open spec fn all_taken(used: Seq<u8>, start: int, step: int) -> bool {
    forall|k: int| in_class(k, start, step) ==> used.contains(k as u8)
}

/// Whether `used` holds `x`.
pub fn contains_id(used: &Vec<u8>, x: u8) -> (r: bool)
    ensures
        r == used@.contains(x),
{
    let mut i: usize = 0;
    while i < used.len()
        invariant
            0 <= i <= used@.len(),
            forall|j: int| 0 <= j < i ==> used@[j] != x,
        decreases used@.len() - i,
    {
        if used[i] == x {
            return true;
        }
        i += 1;
    }
    false
}

/// The first free id of the sequence `start, start + step, ...` (gap
/// filling); `None` when every candidate up to 255 is taken.
pub fn first_free_id(used: &Vec<u8>, start: u8, step: u8) -> (r: Option<u8>)
    requires
        step == 1 || step == 2,
    ensures
        match r {
            Some(x) => is_first_free(used@, start as int, step as int, x as int),
            None => all_taken(used@, start as int, step as int),
        },
{
    let mut c: u8 = start;
    loop
        invariant
            step == 1 || step == 2,
            in_class(c as int, start as int, step as int),
            forall|k: int| in_class(k, start as int, step as int) && k < c ==> used@.contains(k as u8),
        decreases 255 - c,
    {
        if !contains_id(used, c) {
            return Some(c);
        }
        if c as u16 + step as u16 > 255 {
            assert forall|k: int| in_class(k, start as int, step as int) implies used@.contains(
                k as u8,
            ) by {
                if k > c {
                    assert(k >= c + step);
                }
            }
            return None;
        }
        c = c + step;
    }
}

/// What a component id addresses.
#[derive(Debug, Clone, Copy, PartialEq, Eq, Structural)]
pub enum IdKind {
    /// a window, by one component
    Term,
    /// a container, by two components
    Container,
    /// an editable text field, by three components, the last even
    TextInput,
    /// a read-only text field, by three components, the last odd
    TextNE,
}

/// Whether an id of `len` components ending in `last` can address a
/// component of kind `kind`.
pub open spec fn spec_kind_accepts(kind: IdKind, len: int, last: int) -> bool {
    match kind {
        IdKind::Term => len == 1,
        IdKind::Container => len == 2,
        IdKind::TextInput => len == 3 && last % 2 == 0,
        IdKind::TextNE => len == 3 && last % 2 == 1,
    }
}

/// A composite component id: one component for a window, two for a
/// container, three for a text field.
pub trait CompId {
    /// The number of components.
    spec fn spec_len(&self) -> int;

    /// The last component.
    spec fn spec_last(&self) -> u8;

    fn components(&self) -> (r: usize)
        ensures
            r == self.spec_len(),
    ;

    fn last(&self) -> (r: u8)
        ensures
            r == self.spec_last(),
    ;

    fn is_tree(&self) -> (r: bool)
        ensures
            r == (self.spec_len() == 0),
    {
        self.components() == 0
    }

    fn is_term(&self) -> (r: bool)
        ensures
            r == (self.spec_len() == 1),
    {
        self.components() == 1
    }

    fn is_container(&self) -> (r: bool)
        ensures
            r == (self.spec_len() == 2),
    {
        self.components() == 2
    }

    fn is_text(&self) -> (r: bool)
        ensures
            r == (self.spec_len() == 3),
    {
        self.components() == 3
    }

    /// An editable text field's id: its last component is even.
    fn is_input(&self) -> (r: bool)
        ensures
            r == (self.spec_len() == 3 && self.spec_last() % 2 == 0),
    {
        self.components() == 3 && self.last() % 2 == 0
    }

    /// A read-only text field's id: its last component is odd.
    fn is_noedit(&self) -> (r: bool)
        ensures
            r == (self.spec_len() == 3 && self.spec_last() % 2 == 1),
    {
        self.components() == 3 && self.last() % 2 == 1
    }
}

impl CompId for u8 {
    open spec fn spec_len(&self) -> int {
        1
    }

    open spec fn spec_last(&self) -> u8 {
        *self
    }

    fn components(&self) -> (r: usize) {
        1
    }

    fn last(&self) -> (r: u8) {
        *self
    }
}

impl CompId for [u8; 2] {
    open spec fn spec_len(&self) -> int {
        2
    }

    open spec fn spec_last(&self) -> u8 {
        self[1]
    }

    fn components(&self) -> (r: usize) {
        2
    }

    fn last(&self) -> (r: u8) {
        self[1]
    }
}

impl CompId for [u8; 3] {
    open spec fn spec_len(&self) -> int {
        3
    }

    open spec fn spec_last(&self) -> u8 {
        self[2]
    }

    fn components(&self) -> (r: usize) {
        3
    }

    fn last(&self) -> (r: u8) {
        self[2]
    }
}

} // verus!
