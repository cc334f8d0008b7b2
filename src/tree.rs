use vstd::prelude::*;

use crate::builders::TermBuilder;
use crate::container::{
    container_focused, first_focused_container, first_focused_text, text_focused, with_focus,
    Container,
};
use crate::errors::{IdError, InitError, TreeError};
use crate::geometry::spec_area;
use crate::ids::{all_taken, first_free_id, is_first_free};
use crate::term::Term;

verus! {

/// Where a new window comes from.
#[derive(Debug)]
pub enum TermSource {
    /// a fresh window of the terminal's size with this id
    ById(u8),
    /// the window a builder materializes
    ByBuilder(TermBuilder),
    /// an existing window, checked again
    ByValue(Term),
}

/// Whether two windows agree on everything but their attributes.
pub open spec fn term_same_but_attrs(a: Term, b: Term) -> bool {
    &&& a.layout == b.layout
    &&& a.id == b.id
    &&& a.w == b.w
    &&& a.h == b.h
    &&& a.crsh == b.crsh
    &&& a.crsv == b.crsv
    &&& a.containers == b.containers
    &&& a.properties == b.properties
}

/// Whether a window carries the focus flag.
pub open spec fn term_focused(t: Term) -> bool {
    t.attributes@.contains("focused"@)
}

/// `i` is the first of `ts` that carries the focus flag.
pub open spec fn first_focused_term(ts: Seq<Term>, i: int) -> bool {
    &&& 0 <= i < ts.len()
    &&& term_focused(ts[i])
    &&& forall|m: int| 0 <= m < i ==> !term_focused(#[trigger] ts[m])
}

/// The tree of all windows, with the terminal's last known size.
#[derive(Debug)]
pub struct ComponentTree {
    terms: Vec<Term>,
    cols: u16,
    rows: u16,
}

impl ComponentTree {
    /// The windows, in insertion order.
    pub closed spec fn spec_terms(&self) -> Seq<Term> {
        self.terms@
    }

    /// The terminal's last known width.
    pub closed spec fn spec_cols(&self) -> u16 {
        self.cols
    }

    /// The terminal's last known height.
    pub closed spec fn spec_rows(&self) -> u16 {
        self.rows
    }

    /// Whether a window with this id is in the tree.
    pub open spec fn spec_has_term(&self, id: u8) -> bool {
        exists|i: int| 0 <= i < self.spec_terms().len() && #[trigger] self.spec_terms()[i].id == id
    }

    /// Well-formedness: every window is well formed and no two share an id.
    pub open spec fn wf(&self) -> bool {
        &&& forall|i: int| 0 <= i < self.spec_terms().len() ==> (#[trigger] self.spec_terms()[i]).wf()
        &&& forall|i: int, j: int|
            0 <= i < self.spec_terms().len() && 0 <= j < self.spec_terms().len() && i != j
                ==> #[trigger] self.spec_terms()[i].id != #[trigger] self.spec_terms()[j].id
    }

    /// Appending a well-formed window with a new id keeps the tree well
    /// formed.
    proof fn lemma_push_keeps_wf(old_t: ComponentTree, new_t: ComponentTree, t: Term)
        requires
            old_t.wf(),
            new_t.spec_terms() == old_t.spec_terms().push(t),
            t.wf(),
            !old_t.spec_has_term(t.id),
        ensures
            new_t.wf(),
    {
        let n = old_t.spec_terms().len() as int;
        assert forall|i: int| 0 <= i < new_t.spec_terms().len() implies (
        #[trigger] new_t.spec_terms()[i]).wf() by {
            if i < n {
                assert(new_t.spec_terms()[i] == old_t.spec_terms()[i]);
            }
        }
        assert forall|i: int, j: int|
            0 <= i < new_t.spec_terms().len() && 0 <= j < new_t.spec_terms().len() && i
                != j implies #[trigger] new_t.spec_terms()[i].id != #[trigger] new_t.spec_terms()[j].id by {
            if i < n && j < n {
                assert(new_t.spec_terms()[i] == old_t.spec_terms()[i]);
                assert(new_t.spec_terms()[j] == old_t.spec_terms()[j]);
            } else if i < n {
                assert(new_t.spec_terms()[i] == old_t.spec_terms()[i]);
            } else {
                assert(new_t.spec_terms()[j] == old_t.spec_terms()[j]);
            }
        }
    }

    /// A tree holding one focused, empty window with id 0, of the
    /// terminal's size.
    pub fn new(cols: u16, rows: u16) -> (r: ComponentTree)
        ensures
            r.spec_cols() == cols,
            r.spec_rows() == rows,
            r.spec_terms().len() == 1,
            r.spec_terms()[0].id == 0,
            r.spec_terms()[0].w == cols,
            r.spec_terms()[0].h == rows,
            r.spec_terms()[0].containers@.len() == 0,
            r.spec_terms()[0].attributes@ == set!["focused"@],
            r.wf(),
    {
        let mut t = Term::new(0, cols, rows);
        t.attributes.insert("focused");
        assert(t.attributes@ =~= set!["focused"@]);
        let mut terms: Vec<Term> = Vec::new();
        terms.push(t);
        ComponentTree { terms, cols, rows }
    }

    /// The number of windows.
    pub fn len(&self) -> (r: usize)
        ensures
            r == self.spec_terms().len(),
    {
        self.terms.len()
    }

    /// The position of the window with this id.
    fn term_index(&self, id: u8) -> (r: Option<usize>)
        ensures
            match r {
                Some(i) => i < self.spec_terms().len() && self.spec_terms()[i as int].id == id,
                None => !self.spec_has_term(id),
            },
    {
        let mut i: usize = 0;
        while i < self.terms.len()
            invariant
                0 <= i <= self.terms@.len(),
                forall|j: int| 0 <= j < i ==> #[trigger] self.terms@[j].id != id,
            decreases self.terms@.len() - i,
        {
            if self.terms[i].id == id {
                return Some(i);
            }
            i += 1;
        }
        None
    }

    /// Whether a window with this id is in the tree.
    pub fn has_term(&self, id: u8) -> (r: bool)
        ensures
            r == self.spec_has_term(id),
    {
        self.term_index(id).is_some()
    }

    /// Whether a window with this id is in the tree.
    pub fn id_in_use(&self, id: u8) -> (r: bool)
        ensures
            r == self.spec_has_term(id),
    {
        self.has_term(id)
    }

    /// The window with this id.
    pub fn term_ref(&self, id: u8) -> (r: Option<&Term>)
        ensures
            match r {
                Some(t) => t.id == id && self.spec_terms().contains(*t),
                None => !self.spec_has_term(id),
            },
    {
        match self.term_index(id) {
            Some(i) => Some(&self.terms[i]),
            None => None,
        }
    }

    /// The container with this id, in the window its first component names.
    pub fn grandchild_ref(&self, id: [u8; 2]) -> (r: Option<&Container>)
        ensures
            r matches Some(c) ==> c.id == id && exists|i: int|
                0 <= i < self.spec_terms().len() && #[trigger] self.spec_terms()[i].id == id[0]
                    && self.spec_terms()[i].containers@.contains(*c),
            r is None ==> !exists|i: int|
                0 <= i < self.spec_terms().len() && #[trigger] self.spec_terms()[i].id == id[0]
                    && self.spec_terms()[i].spec_has_container(id),
    {
        let mut i: usize = 0;
        while i < self.terms.len()
            invariant
                0 <= i <= self.terms@.len(),
                forall|m: int|
                    0 <= m < i && #[trigger] self.terms@[m].id == id[0]
                        ==> !self.terms@[m].spec_has_container(id),
            decreases self.terms@.len() - i,
        {
            if self.terms[i].id == id[0] {
                match self.terms[i].container_index(&id) {
                    Some(k) => {
                        return Some(&self.terms[i].containers[k]);
                    },
                    None => {},
                }
            }
            i += 1;
        }
        None
    }

    /// The first free window id, filling gaps first; `None` when all 256
    /// are taken.
    pub fn assign_term_id(&self) -> (r: Option<u8>)
        ensures
            match r {
                Some(x) => is_first_free(self.spec_terms().map_values(|t: Term| t.id), 0, 1, x as int),
                None => all_taken(self.spec_terms().map_values(|t: Term| t.id), 0, 1),
            },
    {
        let mut used: Vec<u8> = Vec::new();
        let mut i: usize = 0;
        while i < self.terms.len()
            invariant
                0 <= i <= self.terms@.len(),
                used@ == self.terms@.take(i as int).map_values(|t: Term| t.id),
            decreases self.terms@.len() - i,
        {
            used.push(self.terms[i].id);
            i += 1;
            assert(used@ =~= self.terms@.take(i as int).map_values(|t: Term| t.id));
        }
        assert(self.terms@.take(i as int) =~= self.terms@);
        first_free_id(&used, 0, 1)
    }

    /// Appends a window that passed every check.
    fn push(&mut self, t: Term)
        requires
            t.wf(),
            !old(self).spec_has_term(t.id),
        ensures
            final(self).spec_terms() == old(self).spec_terms().push(t),
            final(self).spec_cols() == old(self).spec_cols(),
            final(self).spec_rows() == old(self).spec_rows(),
            old(self).wf() ==> final(self).wf(),
    {
        let ghost old_t = *self;
        self.terms.push(t);
        proof {
            if old_t.wf() {
                ComponentTree::lemma_push_keeps_wf(old_t, *self, t);
            }
        }
    }

    /// Adds an empty window of the terminal's size with this id; an id
    /// already used is refused and the tree is left as it was.
    pub fn term_from_id(&mut self, id: u8) -> (r: Result<(), TreeError>)
        ensures
            r is Ok <==> !old(self).spec_has_term(id),
            r matches Err(e) ==> e == TreeError::IdError(IdError::IdAlreadyTaken) && *final(self)
                == *old(self),
            r is Ok ==> final(self).spec_terms().len() == old(self).spec_terms().len() + 1
                && final(self).spec_terms().drop_last() == old(self).spec_terms() && ({
                let t = final(self).spec_terms().last();
                &&& t.id == id
                &&& t.w == old(self).spec_cols()
                &&& t.h == old(self).spec_rows()
                &&& t.containers@.len() == 0
            }),
            final(self).spec_cols() == old(self).spec_cols(),
            final(self).spec_rows() == old(self).spec_rows(),
            old(self).wf() ==> final(self).wf(),
    {
        if self.has_term(id) {
            return Err(TreeError::IdError(IdError::IdAlreadyTaken));
        }
        let t = Term::new(id, self.cols, self.rows);
        self.push(t);
        assert(self.spec_terms().drop_last() =~= old(self).spec_terms());
        Ok(())
    }

    /// Adds the window a builder materializes in the terminal's size; a
    /// builder whose id is already used is refused before it moves on.
    pub fn term_from_builder(&mut self, builder: &mut TermBuilder) -> (r: Result<(), TreeError>)
        ensures
            r is Ok <==> !old(self).spec_has_term(old(builder).id),
            r matches Err(e) ==> e == TreeError::InitError(InitError::TermNotMade) && *final(self)
                == *old(self) && *final(builder) == *old(builder),
            r is Ok ==> final(self).spec_terms().len() == old(self).spec_terms().len() + 1
                && final(self).spec_terms().drop_last() == old(self).spec_terms() && ({
                let t = final(self).spec_terms().last();
                &&& t.id == old(builder).id
                &&& t.layout == old(builder).layout
                &&& t.w == spec_area(old(builder).area, old(self).spec_cols(), old(self).spec_rows()).0
                &&& t.h == spec_area(old(builder).area, old(self).spec_cols(), old(self).spec_rows()).1
                &&& t.containers@.len() == 0
            }),
            final(self).spec_cols() == old(self).spec_cols(),
            final(self).spec_rows() == old(self).spec_rows(),
            old(self).wf() ==> final(self).wf(),
    {
        if self.has_term(builder.id) {
            return Err(TreeError::InitError(InitError::TermNotMade));
        }
        let t = builder.build(self.cols, self.rows);
        self.push(t);
        assert(self.spec_terms().drop_last() =~= old(self).spec_terms());
        Ok(())
    }

    /// Adds an existing window after checking it exactly as a new one: its
    /// id must be free and its containers consistent. A refused window is
    /// handed back inside the error and the tree is left as it was.
    pub fn term_from_existing(&mut self, term: Term) -> (r: Result<(), TreeError>)
        ensures
            r is Ok <==> !old(self).spec_has_term(term.id) && term.wf(),
            r matches Err(e) ==> e == TreeError::InitError(InitError::InvalidTerm { term })
                && *final(self) == *old(self),
            r is Ok ==> final(self).spec_terms() == old(self).spec_terms().push(term),
            final(self).spec_cols() == old(self).spec_cols(),
            final(self).spec_rows() == old(self).spec_rows(),
            old(self).wf() ==> final(self).wf(),
    {
        if self.has_term(term.id) || !term.is_well_formed() {
            return Err(TreeError::InitError(InitError::InvalidTerm { term }));
        }
        self.push(term);
        Ok(())
    }

    /// Adds a window from an id, a builder or an existing value (see
    /// `term_from_id`, `term_from_builder`, `term_from_existing`).
    pub fn term(&mut self, source: TermSource) -> (r: Result<(), TreeError>)
        ensures
            match source {
                TermSource::ById(id) => (r is Ok <==> !old(self).spec_has_term(id)) && (r is Ok ==> {
                    let n = final(self).spec_terms().last();
                    &&& final(self).spec_terms().drop_last() == old(self).spec_terms()
                    &&& n.id == id
                    &&& n.w == old(self).spec_cols()
                    &&& n.h == old(self).spec_rows()
                    &&& n.containers@.len() == 0
                }) && (r matches Err(e) ==> e == TreeError::IdError(IdError::IdAlreadyTaken)),
                TermSource::ByBuilder(b) => (r is Ok <==> !old(self).spec_has_term(b.id)) && (r is Ok
                    ==> {
                    let n = final(self).spec_terms().last();
                    &&& final(self).spec_terms().drop_last() == old(self).spec_terms()
                    &&& n.id == b.id
                    &&& n.layout == b.layout
                    &&& n.w == spec_area(b.area, old(self).spec_cols(), old(self).spec_rows()).0
                    &&& n.h == spec_area(b.area, old(self).spec_cols(), old(self).spec_rows()).1
                    &&& n.containers@.len() == 0
                }) && (r matches Err(e) ==> e == TreeError::InitError(InitError::TermNotMade)),
                TermSource::ByValue(t) => (r is Ok <==> !old(self).spec_has_term(t.id) && t.wf()) && (
                r is Ok ==> final(self).spec_terms() == old(self).spec_terms().push(t)) && (r matches Err(
                    e,
                ) ==> e == TreeError::InitError(InitError::InvalidTerm { term: t })),
            },
            r is Err ==> *final(self) == *old(self),
            r is Ok ==> final(self).spec_terms().len() == old(self).spec_terms().len() + 1,
            final(self).spec_cols() == old(self).spec_cols(),
            final(self).spec_rows() == old(self).spec_rows(),
            old(self).wf() ==> final(self).wf(),
    {
        match source {
            TermSource::ById(id) => self.term_from_id(id),
            TermSource::ByBuilder(b) => {
                let mut b = b;
                self.term_from_builder(&mut b)
            },
            TermSource::ByValue(t) => self.term_from_existing(t),
        }
    }

    /// Adds an empty window of the terminal's size under the first free id,
    /// and returns that id; `None`, with the tree unchanged, when all ids are
    /// taken.
    pub fn term_auto(&mut self) -> (r: Option<u8>)
        ensures
            match r {
                Some(id) => is_first_free(
                    old(self).spec_terms().map_values(|t: Term| t.id),
                    0,
                    1,
                    id as int,
                ) && final(self).spec_terms().drop_last() == old(self).spec_terms() && ({
                    let n = final(self).spec_terms().last();
                    &&& final(self).spec_terms().len() == old(self).spec_terms().len() + 1
                    &&& n.id == id
                    &&& n.w == old(self).spec_cols()
                    &&& n.h == old(self).spec_rows()
                    &&& n.containers@.len() == 0
                }),
                None => *final(self) == *old(self),
            },
            final(self).spec_cols() == old(self).spec_cols(),
            final(self).spec_rows() == old(self).spec_rows(),
            old(self).wf() ==> final(self).wf(),
    {
        match self.assign_term_id() {
            Some(id) => {
                proof {
                    if self.spec_has_term(id) {
                        let i = choose|i: int|
                            0 <= i < self.spec_terms().len() && #[trigger] self.spec_terms()[i].id
                                == id;
                        assert(self.spec_terms().map_values(|t: Term| t.id)[i] == id);
                    }
                }
                let t = Term::new(id, self.cols, self.rows);
                self.push(t);
                assert(self.spec_terms().drop_last() =~= old(self).spec_terms());
                Some(id)
            },
            None => None,
        }
    }

    /// Takes the window with this id out of the tree.
    pub fn remove(&mut self, id: u8) -> (r: Option<Term>)
        ensures
            match r {
                Some(t) => t.id == id && exists|i: int|
                    0 <= i < old(self).spec_terms().len() && old(self).spec_terms()[i] == t
                        && final(self).spec_terms() == old(self).spec_terms().remove(i),
                None => !old(self).spec_has_term(id) && *final(self) == *old(self),
            },
            final(self).spec_cols() == old(self).spec_cols(),
            final(self).spec_rows() == old(self).spec_rows(),
            old(self).wf() ==> final(self).wf(),
    {
        match self.term_index(id) {
            Some(i) => {
                let t = self.terms.remove(i);
                proof {
                    let o = old(self).terms@;
                    assert forall|a: int| 0 <= a < self.terms@.len() implies #[trigger] self.terms@[a]
                        == o[if a < i {
                        a
                    } else {
                        a + 1
                    }] by {}
                    if old(self).wf() {
                        assert forall|a: int, b: int|
                            0 <= a < self.terms@.len() && 0 <= b < self.terms@.len() && a
                                != b implies #[trigger] self.terms@[a].id != #[trigger] self.terms@[b].id by {
                            let a2 = if a < i {
                                a
                            } else {
                                a + 1
                            };
                            let b2 = if b < i {
                                b
                            } else {
                                b + 1
                            };
                            assert(o[a2].id != o[b2].id);
                        }
                        assert forall|a: int| 0 <= a < self.terms@.len() implies (
                        #[trigger] self.terms@[a]).wf() by {
                            let a2 = if a < i {
                                a
                            } else {
                                a + 1
                            };
                            assert(o[a2].wf());
                        }
                    }
                }
                Some(t)
            },
            None => None,
        }
    }

    /// Gives the focus to the window with this id and takes it from every
    /// other window; an unknown id is refused and the focus stays where it
    /// was.
    pub fn focus(&mut self, id: u8) -> (r: Result<(), TreeError>)
        ensures
            r is Ok <==> old(self).spec_has_term(id),
            r matches Err(e) ==> e == TreeError::BadID && *final(self) == *old(self),
            r is Ok ==> final(self).spec_terms().len() == old(self).spec_terms().len() && forall|
                i: int,
            |
                0 <= i < old(self).spec_terms().len() ==> {
                    let (a, b) = (#[trigger] old(self).spec_terms()[i], final(self).spec_terms()[i]);
                    &&& term_same_but_attrs(a, b)
                    &&& b.attributes@ == with_focus(a.attributes@, a.id == id)
                },
            final(self).spec_cols() == old(self).spec_cols(),
            final(self).spec_rows() == old(self).spec_rows(),
            old(self).wf() ==> final(self).wf(),
    {
        if !self.has_term(id) {
            return Err(TreeError::BadID);
        }
        let n = self.terms.len();
        let mut i: usize = 0;
        while i < n
            invariant
                0 <= i <= n,
                n == old(self).terms@.len(),
                self.terms@.len() == n,
                self.cols == old(self).cols,
                self.rows == old(self).rows,
                forall|k: int|
                    0 <= k < i ==> {
                        let (a, b) = (#[trigger] old(self).terms@[k], self.terms@[k]);
                        &&& term_same_but_attrs(a, b)
                        &&& b.attributes@ == with_focus(a.attributes@, a.id == id)
                    },
                forall|k: int| i <= k < n ==> #[trigger] self.terms@[k] == old(self).terms@[k],
            decreases n - i,
        {
            let is_target = self.terms[i].id == id;
            self.terms[i].attributes.remove("focused");
            if is_target {
                self.terms[i].attributes.insert("focused");
                assert(self.terms@[i as int].attributes@ =~= old(self).terms@[i as int].attributes@.insert(
                    "focused"@,
                ));
            }
            i += 1;
        }
        proof {
            if old(self).wf() {
                assert forall|a: int| 0 <= a < self.terms@.len() implies (
                #[trigger] self.terms@[a]).wf() by {
                    let o = old(self).terms@[a];
                    let t = self.terms@[a];
                    assert(o.wf());
                    assert forall|k: int| 0 <= k < t.containers@.len() implies {
                        let c = #[trigger] t.containers@[k];
                        t.child_ok(c)
                    } by {
                        assert(t.containers@[k] == o.containers@[k]);
                    }
                    assert forall|k: int, m: int|
                        0 <= k < t.containers@.len() && 0 <= m < t.containers@.len() && k
                            != m implies {
                        &&& #[trigger] t.containers@[k].id != #[trigger] t.containers@[m].id
                        &&& !crate::term::containers_conflict(t.containers@[k], t.containers@[m])
                    } by {
                        assert(o.containers@[k].id != o.containers@[m].id);
                    }
                    assert forall|k1: int, j1: int, k2: int, j2: int|
                        #[trigger] t.focused_at(k1, j1) && #[trigger] t.focused_at(
                            k2,
                            j2,
                        ) implies k1 == k2 && j1 == j2 by {
                        assert(o.focused_at(k1, j1) && o.focused_at(k2, j2));
                    }
                }
                assert forall|a: int, b: int|
                    0 <= a < self.terms@.len() && 0 <= b < self.terms@.len() && a
                        != b implies #[trigger] self.terms@[a].id != #[trigger] self.terms@[b].id by {
                    assert(old(self).terms@[a].id != old(self).terms@[b].id);
                }
            }
        }
        Ok(())
    }

    /// The id of the first window carrying the focus.
    pub fn focused(&self) -> (r: Result<u8, TreeError>)
        ensures
            match r {
                Ok(id) => exists|i: int|
                    0 <= i < self.spec_terms().len() && #[trigger] self.spec_terms()[i].id == id
                        && self.spec_terms()[i].attributes@.contains("focused"@),
                Err(e) => e == TreeError::NoFocusedTerm && forall|i: int|
                    0 <= i < self.spec_terms().len() ==> !(#[trigger] self.spec_terms()[i]).attributes@.contains(
                        "focused"@,
                    ),
            },
    {
        match self.focused_index() {
            Some(i) => Ok(self.terms[i].id),
            None => Err(TreeError::NoFocusedTerm),
        }
    }

    fn focused_index(&self) -> (r: Option<usize>)
        ensures
            match r {
                Some(i) => first_focused_term(self.spec_terms(), i as int),
                None => forall|i: int|
                    0 <= i < self.spec_terms().len() ==> !term_focused(#[trigger] self.spec_terms()[i]),
            },
    {
        let mut i: usize = 0;
        while i < self.terms.len()
            invariant
                0 <= i <= self.terms@.len(),
                forall|k: int| 0 <= k < i ==> !term_focused(#[trigger] self.terms@[k]),
            decreases self.terms@.len() - i,
        {
            if self.terms[i].is_focused() {
                return Some(i);
            }
            i += 1;
        }
        None
    }

    /// The full id of the focused text field: in the first focused window,
    /// the first focused container, its first focused field. Each missing
    /// link of that chain is its own error.
    pub fn focused_extended(&self) -> (r: Result<[u8; 3], TreeError>)
        ensures
            (forall|i: int|
                0 <= i < self.spec_terms().len() ==> !term_focused(#[trigger] self.spec_terms()[i]))
                ==> r == Err::<[u8; 3], TreeError>(TreeError::NoFocusedComp),
            forall|i: int|
                #[trigger] first_focused_term(self.spec_terms(), i) ==> {
                    let t = self.spec_terms()[i];
                    &&& (forall|k: int|
                        0 <= k < t.containers@.len() ==> !container_focused(
                            #[trigger] t.containers@[k],
                        )) ==> r == Err::<[u8; 3], TreeError>(
                        TreeError::NoFocusedContainer { tid: t.id },
                    )
                    &&& forall|k: int|
                        #[trigger] first_focused_container(t.containers@, k) ==> {
                            let c = t.containers@[k];
                            &&& (forall|j: int|
                                0 <= j < c.texts@.len() ==> !text_focused(#[trigger] c.texts@[j]))
                                ==> r == Err::<[u8; 3], TreeError>(
                                TreeError::NoFocusedText { cid: c.id },
                            )
                            &&& forall|j: int|
                                #[trigger] first_focused_text(c.texts@, j) ==> r == Ok::<
                                    [u8; 3],
                                    TreeError,
                                >(c.texts@[j].id)
                        }
                },
    {
        let i = match self.focused_index() {
            Some(i) => i,
            None => return Err(TreeError::NoFocusedComp),
        };
        let t = &self.terms[i];
        let mut k: usize = 0;
        while k < t.containers.len()
            invariant
                0 <= k <= t.containers@.len(),
                first_focused_term(self.spec_terms(), i as int),
                *t == self.terms@[i as int],
                forall|m: int| 0 <= m < k ==> !container_focused(#[trigger] t.containers@[m]),
            decreases t.containers@.len() - k,
        {
            if t.containers[k].is_focused() {
                let c = &t.containers[k];
                assert(first_focused_container(t.containers@, k as int));
                let found = c.focused_text();
                if found.is_none() {
                    return Err(TreeError::NoFocusedText { cid: c.id });
                }
                let j = found.unwrap();
                return Ok(c.texts[j].id);
            }
            k += 1;
        }
        Err(TreeError::NoFocusedContainer { tid: t.id })
    }

    /// Takes a new terminal size. Every window takes it, unless some
    /// window's containers would not fit it: then nothing changes and the
    /// resize is refused.
    pub fn resize(&mut self, cols: u16, rows: u16) -> (r: Result<(), TreeError>)
        ensures
            r is Ok <==> forall|i: int, k: int|
                0 <= i < old(self).spec_terms().len() && 0 <= k
                    < old(self).spec_terms()[i].containers@.len() ==> {
                    let c = #[trigger] old(self).spec_terms()[i].containers@[k];
                    c.hpos + c.spec_dw() <= cols && c.vpos + c.spec_dh() <= rows
                },
            r matches Err(e) ==> e == TreeError::BoundsNotRespected && *final(self) == *old(self),
            r is Ok ==> final(self).spec_cols() == cols && final(self).spec_rows() == rows
                && final(self).spec_terms().len() == old(self).spec_terms().len() && forall|i: int|
                0 <= i < old(self).spec_terms().len() ==> {
                    let (a, b) = (#[trigger] old(self).spec_terms()[i], final(self).spec_terms()[i]);
                    &&& b == (Term { w: cols, h: rows, ..a })
                },
            old(self).wf() ==> final(self).wf(),
    {
        let n = self.terms.len();
        let mut i: usize = 0;
        while i < n
            invariant
                0 <= i <= n,
                n == self.terms@.len(),
                *self == *old(self),
                forall|a: int, k: int|
                    0 <= a < i && 0 <= k < self.terms@[a].containers@.len() ==> {
                        let c = #[trigger] self.terms@[a].containers@[k];
                        c.hpos + c.spec_dw() <= cols && c.vpos + c.spec_dh() <= rows
                    },
            decreases n - i,
        {
            let probe = Term::new(0, cols, rows);
            let t = &self.terms[i];
            let mut k: usize = 0;
            while k < t.containers.len()
                invariant
                    0 <= k <= t.containers@.len(),
                    i < n,
                    n == self.terms@.len(),
                    *self == *old(self),
                    *t == self.terms@[i as int],
                    probe.w == cols && probe.h == rows,
                    forall|m: int|
                        0 <= m < k ==> {
                            let c = #[trigger] t.containers@[m];
                            c.hpos + c.spec_dw() <= cols && c.vpos + c.spec_dh() <= rows
                        },
                decreases t.containers@.len() - k,
            {
                if probe.check_area_origin(&t.containers[k]) {
                    proof {
                        let c = old(self).spec_terms()[i as int].containers@[k as int];
                        assert(!(c.hpos + c.spec_dw() <= cols && c.vpos + c.spec_dh() <= rows));
                    }
                    return Err(TreeError::BoundsNotRespected);
                }
                k += 1;
            }
            i += 1;
        }
        let mut j: usize = 0;
        while j < n
            invariant
                0 <= j <= n,
                n == old(self).terms@.len(),
                self.terms@.len() == n,
                self.cols == old(self).cols,
                self.rows == old(self).rows,
                forall|a: int, k: int|
                    0 <= a < n && 0 <= k < old(self).terms@[a].containers@.len() ==> {
                        let c = #[trigger] old(self).terms@[a].containers@[k];
                        c.hpos + c.spec_dw() <= cols && c.vpos + c.spec_dh() <= rows
                    },
                forall|a: int|
                    0 <= a < j ==> #[trigger] self.terms@[a] == (Term {
                        w: cols,
                        h: rows,
                        ..old(self).terms@[a]
                    }),
                forall|a: int| j <= a < n ==> #[trigger] self.terms@[a] == old(self).terms@[a],
            decreases n - j,
        {
            self.terms[j].w = cols;
            self.terms[j].h = rows;
            j += 1;
        }
        self.cols = cols;
        self.rows = rows;
        proof {
            if old(self).wf() {
                assert forall|a: int| 0 <= a < self.terms@.len() implies (
                #[trigger] self.terms@[a]).wf() by {
                    let o = old(self).terms@[a];
                    let t = self.terms@[a];
                    assert(o.wf());
                    assert forall|k: int| 0 <= k < t.containers@.len() implies {
                        let c = #[trigger] t.containers@[k];
                        t.child_ok(c)
                    } by {
                        assert(t.containers@[k] == o.containers@[k]);
                    }
                    assert forall|k: int, m: int|
                        0 <= k < t.containers@.len() && 0 <= m < t.containers@.len() && k
                            != m implies {
                        &&& #[trigger] t.containers@[k].id != #[trigger] t.containers@[m].id
                        &&& !crate::term::containers_conflict(t.containers@[k], t.containers@[m])
                    } by {
                        assert(o.containers@[k].id != o.containers@[m].id);
                    }
                    assert forall|k1: int, j1: int, k2: int, j2: int|
                        #[trigger] t.focused_at(k1, j1) && #[trigger] t.focused_at(
                            k2,
                            j2,
                        ) implies k1 == k2 && j1 == j2 by {
                        assert(o.focused_at(k1, j1) && o.focused_at(k2, j2));
                    }
                }
                assert forall|a: int, b: int|
                    0 <= a < self.terms@.len() && 0 <= b < self.terms@.len() && a
                        != b implies #[trigger] self.terms@[a].id != #[trigger] self.terms@[b].id by {
                    assert(old(self).terms@[a].id != old(self).terms@[b].id);
                }
            }
        }
        Ok(())
    }
}

} // verus!
