use vstd::prelude::*;

use crate::attributes::Attributes;
use crate::border::{border_fit, Border};
use crate::container::{
    check_space, container_same_but_attrs, same_frame, text_focused, with_focus, Container,
    Position,
};
use crate::errors::{IdError, SpaceError, TreeError, ValidationError};
use crate::geometry::{
    rects_conflict, resolve_wh, spec_anchor, spec_area, spec_extra_h, spec_extra_w,
    spec_rects_conflict, Area, Pos,
};
use crate::ids::{all_taken, first_free_id, is_first_free};
use crate::layout::{Layout, LayoutRules};
use crate::padding::Padding;
use crate::property::Properties;
use crate::builders::{spec_anchor_or_start, ContainerBuilder, TextBuilder};
use crate::text::{spec_buffer, Text};

verus! {

/// Whether two containers' decorated boxes overlap.
pub open spec fn containers_conflict(a: Container, b: Container) -> bool {
    spec_rects_conflict(
        a.hpos as int,
        a.vpos as int,
        a.spec_dw(),
        a.spec_dh(),
        b.hpos as int,
        b.vpos as int,
        b.spec_dw(),
        b.spec_dh(),
    )
}

/// Whether two windows agree on everything but their containers.
pub open spec fn term_same_frame(a: Term, b: Term) -> bool {
    &&& a.layout == b.layout
    &&& a.id == b.id
    &&& a.w == b.w
    &&& a.h == b.h
    &&& a.crsh == b.crsh
    &&& a.crsv == b.crsv
    &&& a.properties == b.properties
    &&& a.attributes == b.attributes
}

/// A window: the top-level surface, owning its containers.
#[derive(Debug)]
pub struct Term {
    /// how direct children are placed
    pub layout: Layout,
    pub id: u8,
    /// width in cells
    pub w: u16,
    /// height in cells
    pub h: u16,
    /// displayed cursor column
    pub crsh: u16,
    /// displayed cursor row
    pub crsv: u16,
    /// the containers, in insertion order
    pub containers: Vec<Container>,
    pub properties: Properties,
    pub attributes: Attributes,
}

impl Term {
    /// Whether a container's decorated box lies inside the window.
    pub open spec fn container_fits(&self, c: Container) -> bool {
        c.hpos + c.spec_dw() <= self.w && c.vpos + c.spec_dh() <= self.h
    }

    /// Whether a container may stand in this window as it is: its id's
    /// first component is the window's id, it is well formed, and it fits.
    pub open spec fn child_ok(&self, c: Container) -> bool {
        c.id[0] == self.id && c.wf() && self.container_fits(c)
    }

    /// Whether a container with this id is a child.
    pub open spec fn spec_has_container(&self, id: [u8; 2]) -> bool {
        exists|i: int| 0 <= i < self.containers@.len() && #[trigger] self.containers@[i].id == id
    }

    /// Whether a box conflicts with a child's decorated box.
    pub open spec fn spec_conflicts(&self, x: int, y: int, w: int, h: int) -> bool {
        exists|i: int|
            0 <= i < self.containers@.len() && #[trigger] spec_rects_conflict(
                x,
                y,
                w,
                h,
                self.containers@[i].hpos as int,
                self.containers@[i].vpos as int,
                self.containers@[i].spec_dw(),
                self.containers@[i].spec_dh(),
            )
    }

    /// Well-formedness: the layout is consistent and at most one text field
    /// of the window carries the focus.
    pub open spec fn wf(&self) -> bool {
        self.layout_ok() && self.focus_unique()
    }

    /// Whether the text field at container `k`, position `j` exists and
    /// carries the focus flag.
    pub open spec fn focused_at(&self, k: int, j: int) -> bool {
        &&& 0 <= k < self.containers@.len()
        &&& 0 <= j < self.containers@[k].texts@.len()
        &&& text_focused(self.containers@[k].texts@[j])
    }

    /// At most one text field of the window carries the focus flag.
    pub open spec fn focus_unique(&self) -> bool {
        forall|k1: int, j1: int, k2: int, j2: int|
            #[trigger] self.focused_at(k1, j1) && #[trigger] self.focused_at(k2, j2) ==> k1 == k2
                && j1 == j2
    }

    /// The layout part of well-formedness: every container belongs to this
    /// window by its id, is well formed and fits the window, and no two
    /// containers share an id or overlap.
    pub open spec fn layout_ok(&self) -> bool {
        &&& forall|i: int|
            0 <= i < self.containers@.len() ==> {
                let c = #[trigger] self.containers@[i];
                self.child_ok(c)
            }
        &&& forall|i: int, j: int|
            0 <= i < self.containers@.len() && 0 <= j < self.containers@.len() && i != j ==> {
                &&& #[trigger] self.containers@[i].id != #[trigger] self.containers@[j].id
                &&& !containers_conflict(self.containers@[i], self.containers@[j])
            }
    }

    /// Whether a text field with this id stands in the container its first
    /// two components name.
    pub open spec fn spec_has_text(&self, id: [u8; 3]) -> bool {
        exists|i: int|
            0 <= i < self.containers@.len() && (#[trigger] self.containers@[i]).id == [id[0], id[1]]
                && self.containers@[i].spec_has_text(id)
    }

    /// Why a new container with these resolved values would be refused, in
    /// the order the checks run; `None` when it is accepted. `children_ok`
    /// tells whether the container's own text fields are consistent.
    pub open spec fn spec_container_error(
        &self,
        id: [u8; 2],
        border: Border,
        padding: Padding,
        w: int,
        h: int,
        hpos: int,
        vpos: int,
        children_ok: bool,
    ) -> Option<TreeError> {
        let dw = w + spec_extra_w(border, padding);
        let dh = h + spec_extra_h(border, padding);
        if self.spec_has_container(id) {
            Some(TreeError::IdError(IdError::IdAlreadyTaken))
        } else if id[0] != self.id {
            Some(TreeError::ParentNotFound)
        } else if !border.spec_fits(padding) || !children_ok {
            Some(TreeError::BoundsNotRespected)
        } else if dw > self.w || dh > self.h {
            Some(TreeError::SpaceError(SpaceError::AreaOutOfBounds))
        } else if hpos + dw > self.w || vpos + dh > self.h {
            Some(TreeError::SpaceError(SpaceError::OriginOutOfBounds))
        } else if self.spec_conflicts(hpos, vpos, dw, dh) {
            Some(TreeError::BoundsNotRespected)
        } else {
            None
        }
    }

    /// Appending a container that passed every check keeps the window well
    /// formed.
    proof fn lemma_push_keeps_wf(old_t: Term, new_t: Term, c: Container)
        requires
            old_t.wf(),
            term_same_frame(old_t, new_t),
            new_t.containers@ == old_t.containers@.push(c),
            old_t.child_ok(c),
            !old_t.spec_has_container(c.id),
            !old_t.spec_conflicts(c.hpos as int, c.vpos as int, c.spec_dw(), c.spec_dh()),
            forall|j: int| 0 <= j < c.texts@.len() ==> !text_focused(#[trigger] c.texts@[j]),
        ensures
            new_t.wf(),
    {
        let n = old_t.containers@.len() as int;
        assert forall|k1: int, j1: int, k2: int, j2: int|
            #[trigger] new_t.focused_at(k1, j1) && #[trigger] new_t.focused_at(
                k2,
                j2,
            ) implies k1 == k2 && j1 == j2 by {
            if k1 == n {
                assert(new_t.containers@[k1] == c);
                assert(!text_focused(c.texts@[j1]));
            }
            if k2 == n {
                assert(new_t.containers@[k2] == c);
                assert(!text_focused(c.texts@[j2]));
            }
            assert(new_t.containers@[k1] == old_t.containers@[k1]);
            assert(new_t.containers@[k2] == old_t.containers@[k2]);
            assert(old_t.focused_at(k1, j1) && old_t.focused_at(k2, j2));
        }
        assert forall|i: int| 0 <= i < new_t.containers@.len() implies {
            let u = #[trigger] new_t.containers@[i];
            new_t.child_ok(u)
        } by {
            if i < n {
                assert(new_t.containers@[i] == old_t.containers@[i]);
            }
        }
        assert forall|i: int, j: int|
            0 <= i < new_t.containers@.len() && 0 <= j < new_t.containers@.len() && i
                != j implies {
            &&& #[trigger] new_t.containers@[i].id != #[trigger] new_t.containers@[j].id
            &&& !containers_conflict(new_t.containers@[i], new_t.containers@[j])
        } by {
            if i < n && j < n {
                assert(new_t.containers@[i] == old_t.containers@[i]);
                assert(new_t.containers@[j] == old_t.containers@[j]);
            } else {
                let k = if i < n {
                    i
                } else {
                    j
                };
                assert(new_t.containers@[k] == old_t.containers@[k]);
                if old_t.containers@[k].id == c.id {
                    assert(old_t.spec_has_container(c.id));
                }
                if containers_conflict(old_t.containers@[k], c) || containers_conflict(
                    c,
                    old_t.containers@[k],
                ) {
                    assert(spec_rects_conflict(
                        c.hpos as int,
                        c.vpos as int,
                        c.spec_dw(),
                        c.spec_dh(),
                        old_t.containers@[k].hpos as int,
                        old_t.containers@[k].vpos as int,
                        old_t.containers@[k].spec_dw(),
                        old_t.containers@[k].spec_dh(),
                    ));
                }
            }
        }
    }

    /// Replacing a container by one that holds no focused text field but
    /// where the old one held it (at the same position) keeps the focus
    /// unique.
    proof fn lemma_update_keeps_focus(old_t: Term, new_t: Term, k: int, c: Container)
        requires
            old_t.focus_unique(),
            0 <= k < old_t.containers@.len(),
            new_t.containers@ == old_t.containers@.update(k, c),
            forall|j: int|
                0 <= j < c.texts@.len() && text_focused(#[trigger] c.texts@[j]) ==> j
                    < old_t.containers@[k].texts@.len() && text_focused(
                    old_t.containers@[k].texts@[j],
                ),
        ensures
            new_t.focus_unique(),
    {
        assert forall|k1: int, j1: int, k2: int, j2: int|
            #[trigger] new_t.focused_at(k1, j1) && #[trigger] new_t.focused_at(
                k2,
                j2,
            ) implies k1 == k2 && j1 == j2 by {
            if k1 == k {
                assert(text_focused(c.texts@[j1]));
            }
            if k2 == k {
                assert(text_focused(c.texts@[j2]));
            }
            assert(old_t.focused_at(k1, j1) && old_t.focused_at(k2, j2));
        }
    }

    /// Appending an unfocused field to container `k` keeps the focus unique.
    proof fn lemma_append_keeps_focus(old_t: Term, new_t: Term, k: int)
        requires
            old_t.focus_unique(),
            0 <= k < old_t.containers@.len(),
            new_t.containers@ == old_t.containers@.update(k, new_t.containers@[k]),
            new_t.containers@[k].texts@.len() == old_t.containers@[k].texts@.len() + 1,
            new_t.containers@[k].texts@.drop_last() == old_t.containers@[k].texts@,
            !text_focused(new_t.containers@[k].texts@.last()),
        ensures
            new_t.focus_unique(),
    {
        let c = new_t.containers@[k];
        let o = old_t.containers@[k];
        assert forall|j: int|
            0 <= j < c.texts@.len() && text_focused(#[trigger] c.texts@[j]) implies j
                < o.texts@.len() && text_focused(o.texts@[j]) by {
            if j < o.texts@.len() {
                assert(c.texts@.drop_last()[j] == c.texts@[j]);
            }
        }
        Term::lemma_update_keeps_focus(old_t, new_t, k, c);
    }

    /// Replacing a container by one with the same frame that is still well
    /// formed keeps the window's layout consistent.
    proof fn lemma_update_keeps_wf(old_t: Term, new_t: Term, k: int, c: Container)
        requires
            old_t.layout_ok(),
            0 <= k < old_t.containers@.len(),
            term_same_frame(old_t, new_t),
            new_t.containers@ == old_t.containers@.update(k, c),
            same_frame(old_t.containers@[k], c) || container_same_but_attrs(
                old_t.containers@[k],
                c,
            ),
            c.wf(),
        ensures
            new_t.layout_ok(),
    {
        assert forall|i: int| 0 <= i < new_t.containers@.len() implies {
            let u = #[trigger] new_t.containers@[i];
            new_t.child_ok(u)
        } by {
            if i != k {
                assert(new_t.containers@[i] == old_t.containers@[i]);
            } else {
                assert(old_t.child_ok(old_t.containers@[k]));
            }
        }
        assert forall|i: int, j: int|
            0 <= i < new_t.containers@.len() && 0 <= j < new_t.containers@.len() && i
                != j implies {
            &&& #[trigger] new_t.containers@[i].id != #[trigger] new_t.containers@[j].id
            &&& !containers_conflict(new_t.containers@[i], new_t.containers@[j])
        } by {
            assert(old_t.containers@[i].id != old_t.containers@[j].id);
            assert(!containers_conflict(old_t.containers@[i], old_t.containers@[j]));
        }
    }

    /// Returns an empty window with the given id and size.
    pub fn new(id: u8, w: u16, h: u16) -> (r: Term)
        ensures
            r.id == id,
            r.w == w,
            r.h == h,
            r.crsh == 0 && r.crsv == 0,
            r.layout == Layout::Canvas,
            r.containers@.len() == 0,
            r.attributes@ == Set::<Seq<char>>::empty(),
            r.wf(),
    {
        Term {
            layout: Layout::Canvas,
            id,
            w,
            h,
            crsh: 0,
            crsv: 0,
            containers: Vec::new(),
            properties: Properties::new(),
            attributes: Attributes::new(),
        }
    }

    /// Whether this window carries the focus.
    pub fn is_focused(&self) -> (r: bool)
        ensures
            r == self.attributes@.contains("focused"@),
    {
        self.attributes.contains("focused")
    }

    /// Whether this window carries the attribute `attr`.
    pub fn has_attribute(&self, attr: &str) -> (r: bool)
        ensures
            r == self.attributes@.contains(attr@),
    {
        self.attributes.contains(attr)
    }

    /// The number of containers.
    pub fn len(&self) -> (r: usize)
        ensures
            r == self.containers@.len(),
    {
        self.containers.len()
    }

    /// The position of the container with this id among the children.
    pub fn container_index(&self, id: &[u8; 2]) -> (r: Option<usize>)
        ensures
            match r {
                Some(i) => i < self.containers@.len() && self.containers@[i as int].id == *id,
                None => !self.spec_has_container(*id),
            },
    {
        let mut i: usize = 0;
        while i < self.containers.len()
            invariant
                0 <= i <= self.containers@.len(),
                forall|j: int| 0 <= j < i ==> #[trigger] self.containers@[j].id != *id,
            decreases self.containers@.len() - i,
        {
            if self.containers[i].id[0] == id[0] && self.containers[i].id[1] == id[1] {
                assert(self.containers@[i as int].id =~= *id);
                return Some(i);
            }
            i += 1;
        }
        None
    }

    /// Whether the window has a container with this id.
    pub fn has_container(&self, id: &[u8; 2]) -> (r: bool)
        ensures
            r == self.spec_has_container(*id),
    {
        self.container_index(id).is_some()
    }

    /// Whether a text field with this id stands in the container its first
    /// two components name.
    pub fn id_in_use(&self, id: &[u8; 3]) -> (r: bool)
        requires
            self.wf(),
        ensures
            r == self.spec_has_text(*id),
    {
        match self.container_index(&[id[0], id[1]]) {
            Some(i) => {
                let r = self.containers[i].id_in_use(id);
                proof {
                    if self.spec_has_text(*id) {
                        let k = choose|k: int|
                            0 <= k < self.containers@.len() && (#[trigger] self.containers@[k]).id
                                == [id[0], id[1]] && self.containers@[k].spec_has_text(*id);
                        if k != i {
                            assert(self.containers@[k].id != self.containers@[i as int].id);
                        }
                    }
                }
                r
            },
            None => {
                proof {
                    if self.spec_has_text(*id) {
                        let k = choose|k: int|
                            0 <= k < self.containers@.len() && (#[trigger] self.containers@[k]).id
                                == [id[0], id[1]] && self.containers@[k].spec_has_text(*id);
                        assert(self.containers@[k].id == [id[0], id[1]]);
                    }
                }
                false
            },
        }
    }

    /// Whether the window holds an editable text field with this id.
    pub fn has_input(&self, id: &[u8; 3]) -> (r: bool)
        requires
            self.wf(),
        ensures
            r == (id[2] % 2 == 0 && self.spec_has_text(*id)),
    {
        id[2] % 2 == 0 && self.id_in_use(id)
    }

    /// Whether the window holds a read-only text field with this id.
    pub fn has_noedit(&self, id: &[u8; 3]) -> (r: bool)
        requires
            self.wf(),
        ensures
            r == (id[2] % 2 == 1 && self.spec_has_text(*id)),
    {
        id[2] % 2 == 1 && self.id_in_use(id)
    }

    /// The child container whose last id component is `id`.
    pub fn child_ref(&self, id: u8) -> (r: Option<&Container>)
        ensures
            match r {
                Some(c) => c.id == [self.id, id] && self.containers@.contains(*c),
                None => !self.spec_has_container([self.id, id]),
            },
    {
        match self.container_index(&[self.id, id]) {
            Some(i) => Some(&self.containers[i]),
            None => None,
        }
    }

    /// Takes the child container whose last id component is `id` out.
    pub fn remove(&mut self, id: u8) -> (r: Option<Container>)
        requires
            old(self).wf(),
        ensures
            match r {
                Some(c) => exists|i: int|
                    0 <= i < old(self).containers@.len() && old(self).containers@[i] == c && c.id
                        == [old(self).id, id] && final(self).containers@ == old(
                        self,
                    ).containers@.remove(i),
                None => !old(self).spec_has_container([old(self).id, id]) && final(self).containers@
                    == old(self).containers@,
            },
            term_same_frame(*old(self), *final(self)),
            final(self).wf(),
    {
        match self.container_index(&[self.id, id]) {
            Some(i) => {
                let c = self.containers.remove(i);
                proof {
                    let o = old(self).containers@;
                    assert forall|a: int|
                        0 <= a < self.containers@.len() implies #[trigger] self.containers@[a]
                        == o[if a < i {
                        a
                    } else {
                        a + 1
                    }] by {}
                    assert forall|a: int| 0 <= a < self.containers@.len() implies {
                        let c = #[trigger] self.containers@[a];
                        self.child_ok(c)
                    } by {
                        let a2 = if a < i {
                            a
                        } else {
                            a + 1
                        };
                        assert(self.containers@[a] == o[a2]);
                    }
                    assert forall|a: int, b: int|
                        0 <= a < self.containers@.len() && 0 <= b < self.containers@.len() && a
                            != b implies {
                        &&& #[trigger] self.containers@[a].id != #[trigger] self.containers@[b].id
                        &&& !containers_conflict(self.containers@[a], self.containers@[b])
                    } by {
                        let a2 = if a < i {
                            a
                        } else {
                            a + 1
                        };
                        let b2 = if b < i {
                            b
                        } else {
                            b + 1
                        };
                        assert(o[a2].id != o[b2].id);
                        assert(!containers_conflict(o[a2], o[b2]));
                    }
                    assert forall|k1: int, j1: int, k2: int, j2: int|
                        #[trigger] self.focused_at(k1, j1) && #[trigger] self.focused_at(
                            k2,
                            j2,
                        ) implies k1 == k2 && j1 == j2 by {
                        let a1 = if k1 < i {
                            k1
                        } else {
                            k1 + 1
                        };
                        let a2 = if k2 < i {
                            k2
                        } else {
                            k2 + 1
                        };
                        assert(self.containers@[k1] == o[a1]);
                        assert(self.containers@[k2] == o[a2]);
                        assert(old(self).focused_at(a1, j1) && old(self).focused_at(a2, j2));
                    }
                }
                Some(c)
            },
            None => None,
        }
    }

    /// Whether a box conflicts with a child container's decorated box.
    pub fn conflicts(&self, x: u16, y: u16, w: u32, h: u32) -> (r: bool)
        ensures
            r == self.spec_conflicts(x as int, y as int, w as int, h as int),
    {
        let mut i: usize = 0;
        while i < self.containers.len()
            invariant
                0 <= i <= self.containers@.len(),
                forall|j: int|
                    0 <= j < i ==> !#[trigger] spec_rects_conflict(
                        x as int,
                        y as int,
                        w as int,
                        h as int,
                        self.containers@[j].hpos as int,
                        self.containers@[j].vpos as int,
                        self.containers@[j].spec_dw(),
                        self.containers@[j].spec_dh(),
                    ),
            decreases self.containers@.len() - i,
        {
            let c = &self.containers[i];
            let extra = resolve_wh(&c.border, &c.padding);
            if rects_conflict(
                x as u32,
                y as u32,
                w,
                h,
                c.hpos as u32,
                c.vpos as u32,
                c.w as u32 + extra[0],
                c.h as u32 + extra[1],
            ) {
                assert(spec_rects_conflict(
                    x as int,
                    y as int,
                    w as int,
                    h as int,
                    self.containers@[i as int].hpos as int,
                    self.containers@[i as int].vpos as int,
                    self.containers@[i as int].spec_dw(),
                    self.containers@[i as int].spec_dh(),
                ));
                return true;
            }
            i += 1;
        }
        false
    }

    /// The text field with this id, in the container its first two
    /// components name.
    pub fn grandchild_ref(&self, id: [u8; 3]) -> (r: Option<&Text>)
        ensures
            match r {
                Some(t) => t.id == id && exists|k: int|
                    0 <= k < self.containers@.len() && (#[trigger] self.containers@[k]).id == [
                        id[0],
                        id[1],
                    ] && self.containers@[k].texts@.contains(*t),
                None => !self.spec_has_container([id[0], id[1]]) || exists|k: int|
                    0 <= k < self.containers@.len() && (#[trigger] self.containers@[k]).id == [
                        id[0],
                        id[1],
                    ] && !self.containers@[k].spec_has_text(id),
            },
    {
        match self.container_index(&[id[0], id[1]]) {
            Some(k) => {
                let c = &self.containers[k];
                match c.text_index(&id) {
                    Some(j) => {
                        proof {
                            assert(self.containers@[k as int].texts@[j as int] == c.texts@[j as int]);
                        }
                        Some(&c.texts[j])
                    },
                    None => None,
                }
            },
            None => None,
        }
    }

    /// Whether a scrollable container's decorated box crosses the window's
    /// left or right edge; it may run past the bottom edge.
    pub fn check_area_origin_scrollable(&self, child: &Container) -> (r: bool)
        ensures
            r == (child.hpos + child.spec_dw() > self.w),
    {
        let extra = resolve_wh(&child.border, &child.padding);
        child.hpos as u64 + child.w as u64 + extra[0] as u64 > self.w as u64
    }

    /// Whether a container's decorated box crosses the window's edges.
    pub fn check_area_origin(&self, child: &Container) -> (r: bool)
        ensures
            r == !self.container_fits(*child),
    {
        let extra = resolve_wh(&child.border, &child.padding);
        child.hpos as u64 + child.w as u64 + extra[0] as u64 > self.w as u64 || child.vpos as u64
            + child.h as u64 + extra[1] as u64 > self.h as u64
    }

    /// Checks a decorated size at a position against the window.
    pub fn layout_is_valid(&self, size: &[u32; 2], pos: &Position) -> (r: Result<
        (),
        ValidationError,
    >)
        ensures
            r == (if size[0] > self.w && size[1] > self.h {
                Err(ValidationError::WHOverflow)
            } else if size[0] > self.w {
                Err(ValidationError::WidthOverflow)
            } else if size[1] > self.h {
                Err(ValidationError::HeightOverflow)
            } else if pos.x + size[0] > self.w {
                Err(ValidationError::XOutofBounds)
            } else if pos.y + size[1] > self.h {
                Err(ValidationError::YOutOfBounds)
            } else {
                Ok(())
            }),
    {
        check_space(self.w, self.h, size[0], size[1], pos.x, pos.y)
    }

    /// Checks an existing container's geometry against the window: its
    /// decorated size, its position, then its siblings.
    pub fn assign_valid_container_area(&self, cont: &Container) -> (r: Result<(), TreeError>)
        ensures
            r is Ok <==> (self.container_fits(*cont) && !self.spec_conflicts(
                cont.hpos as int,
                cont.vpos as int,
                cont.spec_dw(),
                cont.spec_dh(),
            )),
            r matches Err(e) ==> e == (if cont.spec_dw() > self.w || cont.spec_dh() > self.h {
                TreeError::SpaceError(SpaceError::AreaOutOfBounds)
            } else if !self.container_fits(*cont) {
                TreeError::SpaceError(SpaceError::OriginOutOfBounds)
            } else {
                TreeError::BoundsNotRespected
            }),
    {
        let extra = resolve_wh(&cont.border, &cont.padding);
        let dw = cont.w as u32 + extra[0];
        let dh = cont.h as u32 + extra[1];
        match self.layout_is_valid(&[dw, dh], &Position { x: cont.hpos, y: cont.vpos }) {
            Err(ValidationError::XOutofBounds) | Err(ValidationError::YOutOfBounds) => {
                return Err(TreeError::SpaceError(SpaceError::OriginOutOfBounds));
            },
            Err(_) => {
                return Err(TreeError::SpaceError(SpaceError::AreaOutOfBounds));
            },
            Ok(()) => {},
        }
        if self.conflicts(cont.hpos, cont.vpos, dw, dh) {
            return Err(TreeError::BoundsNotRespected);
        }
        Ok(())
    }

    /// Validates an already-built container against the window and its
    /// siblings exactly as a new one (its own text fields must be
    /// consistent too), clears any focus flag on it and its fields (focus is
    /// given by `focus` alone), and appends it. On any error the container is
    /// handed back with the error and the window is left as it was.
    pub fn push_container(&mut self, c: Container) -> (r: Result<(), (Container, TreeError)>)
        requires
            old(self).wf(),
        ensures
            ({
                let err = old(self).spec_container_error(
                    c.id,
                    c.border,
                    c.padding,
                    c.w as int,
                    c.h as int,
                    c.hpos as int,
                    c.vpos as int,
                    c.wf(),
                );
                &&& r is Ok <==> err is None
                &&& r matches Err(p) ==> err == Some(p.1) && p.0 == c && *final(self) == *old(self)
                &&& r is Ok ==> term_same_frame(*old(self), *final(self))
                    && final(self).containers@.len() == old(self).containers@.len() + 1
                    && final(self).containers@.drop_last() == old(self).containers@ && ({
                    let n = final(self).containers@.last();
                    &&& container_same_but_attrs(c, n)
                    &&& n.attributes@ == c.attributes@.remove("focused"@)
                    &&& forall|j: int|
                        0 <= j < n.texts@.len() ==> (#[trigger] n.texts@[j]).attributes@
                            == c.texts@[j].attributes@.remove("focused"@)
                })
            }),
            final(self).wf(),
    {
        if self.has_container(&c.id) {
            return Err((c, TreeError::IdError(IdError::IdAlreadyTaken)));
        }
        if c.id[0] != self.id {
            return Err((c, TreeError::ParentNotFound));
        }
        if !border_fit(&c.border, &c.padding) || !c.is_well_formed() {
            return Err((c, TreeError::BoundsNotRespected));
        }
        match self.assign_valid_container_area(&c) {
            Err(e) => {
                return Err((c, e));
            },
            Ok(()) => {},
        }
        let ghost c0 = c;
        let mut c = c;
        c.set_focus(None);
        let ghost old_t = *self;
        self.containers.push(c);
        proof {
            assert forall|j: int| 0 <= j < c.texts@.len() implies !text_focused(
                #[trigger] c.texts@[j],
            ) by {
                assert(c.texts@[j].attributes@ == with_focus(c0.texts@[j].attributes@, false));
            }
            assert(old_t.spec_conflicts(c0.hpos as int, c0.vpos as int, c0.spec_dw(), c0.spec_dh())
                == old_t.spec_conflicts(c.hpos as int, c.vpos as int, c.spec_dw(), c.spec_dh()));
            Term::lemma_push_keeps_wf(old_t, *self, c);
            assert(self.containers@.drop_last() =~= old(self).containers@);
        }
        Ok(())
    }

    /// Creates a container from its id, anchors, content area, border and
    /// padding, validates it against the window and its siblings, and
    /// appends it. On any error the window is left as it was. `zpos` is
    /// reserved for layering; overlay is not implemented.
    pub fn container(
        &mut self,
        id: &[u8; 2],
        xpos: Pos,
        ypos: Pos,
        zpos: Pos,
        area: Area,
        border: Border,
        padding: Padding,
    ) -> (r: Result<(), TreeError>)
        requires
            old(self).wf(),
        ensures
            ({
                let (w, h) = spec_area(area, old(self).w, old(self).h);
                let dw = w + spec_extra_w(border, padding);
                let dh = h + spec_extra_h(border, padding);
                let hpos = spec_anchor(xpos, old(self).w as int, dw);
                let vpos = spec_anchor(ypos, old(self).h as int, dh);
                let err = old(self).spec_container_error(
                    *id,
                    border,
                    padding,
                    w as int,
                    h as int,
                    hpos,
                    vpos,
                    true,
                );
                &&& r is Ok <==> err is None
                &&& r matches Err(e) ==> err == Some(e) && *final(self) == *old(self)
                &&& r is Ok ==> term_same_frame(*old(self), *final(self))
                    && final(self).containers@.len() == old(self).containers@.len() + 1
                    && final(self).containers@.drop_last() == old(self).containers@ && ({
                    let c = final(self).containers@.last();
                    &&& c.id == *id
                    &&& c.hpos == hpos
                    &&& c.vpos == vpos
                    &&& c.w == w
                    &&& c.h == h
                    &&& c.border == border
                    &&& c.padding == padding
                    &&& c.texts@.len() == 0
                })
            }),
            final(self).wf(),
    {
        if self.has_container(id) {
            return Err(TreeError::IdError(IdError::IdAlreadyTaken));
        }
        if id[0] != self.id {
            return Err(TreeError::ParentNotFound);
        }
        if !border_fit(&border, &padding) {
            return Err(TreeError::BoundsNotRespected);
        }
        let wh = area.unwrap(self.w, self.h);
        let extra = resolve_wh(&border, &padding);
        let dw = wh[0] as u32 + extra[0];
        let dh = wh[1] as u32 + extra[1];
        if dw > self.w as u32 || dh > self.h as u32 {
            return Err(TreeError::SpaceError(SpaceError::AreaOutOfBounds));
        }
        let hpos = match xpos.point(self.w, dw) {
            Some(p) => p,
            None => return Err(TreeError::SpaceError(SpaceError::AreaOutOfBounds)),
        };
        let vpos = match ypos.point(self.h, dh) {
            Some(p) => p,
            None => return Err(TreeError::SpaceError(SpaceError::AreaOutOfBounds)),
        };
        if hpos as u32 + dw > self.w as u32 || vpos as u32 + dh > self.h as u32 {
            return Err(TreeError::SpaceError(SpaceError::OriginOutOfBounds));
        }
        if self.conflicts(hpos, vpos, dw, dh) {
            return Err(TreeError::BoundsNotRespected);
        }
        let c = Container::new([id[0], id[1]], hpos, vpos, wh[0], wh[1], border, padding);
        let ghost old_t = *self;
        self.containers.push(c);
        proof {
            assert(c.id =~= *id);
            assert(self.containers@.drop_last() =~= old_t.containers@);
            Term::lemma_push_keeps_wf(old_t, *self, c);
        }
        Ok(())
    }
}

impl Term {
    /// What a text insertion through the window does: the container that
    /// the id's first two components name is updated by `inner` and nothing
    /// else changes; an error leaves the window as it was.
    pub open spec fn text_outcome(
        old_t: Term,
        new_t: Term,
        cid: [u8; 2],
        inner: spec_fn(Container, Container) -> bool,
        failed: bool,
    ) -> bool {
        exists|k: int|
            0 <= k < old_t.containers@.len() && #[trigger] old_t.containers@[k].id == cid
                && new_t.containers@.len() == old_t.containers@.len() && new_t.containers@
                == old_t.containers@.update(k, new_t.containers@[k]) && term_same_frame(old_t, new_t)
                && inner(old_t.containers@[k], new_t.containers@[k]) && (failed ==> new_t == old_t)
    }

    /// Creates an editable text field in the container its id's first two
    /// components name (see `Container::place_text`). An odd last component
    /// is refused first, then a missing container.
    pub fn input(
        &mut self,
        id: &[u8; 3],
        xpos: Pos,
        ypos: Pos,
        zpos: Pos,
        area: Area,
        border: Border,
        padding: Padding,
    ) -> (r: Result<(), TreeError>)
        requires
            old(self).wf(),
        ensures
            id[2] % 2 != 0 ==> r == Err::<(), TreeError>(TreeError::IdError(IdError::KindMismatch))
                && *final(self) == *old(self),
            id[2] % 2 == 0 && !old(self).spec_has_container([id[0], id[1]]) ==> r == Err::<
                (),
                TreeError,
            >(TreeError::ParentNotFound) && *final(self) == *old(self),
            id[2] % 2 == 0 && old(self).spec_has_container([id[0], id[1]]) ==> Term::text_outcome(
                *old(self),
                *final(self),
                [id[0], id[1]],
                |a: Container, b: Container|
                    Container::place_outcome(
                        a,
                        b,
                        *id,
                        xpos,
                        ypos,
                        area,
                        border,
                        padding,
                        Seq::<Option<char>>::empty(),
                        true,
                        r,
                    ),
                r is Err,
            ),
            final(self).wf(),
    {
        if id[2] % 2 != 0 {
            return Err(TreeError::IdError(IdError::KindMismatch));
        }
        let empty: Vec<Option<char>> = Vec::new();
        self.text_in_container(id, xpos, ypos, area, border, padding, empty.as_slice(), true)
    }

    /// Creates a read-only text field holding `value` in the container its
    /// id's first two components name (see `Container::place_text`). An even
    /// last component is refused first, then a missing container.
    pub fn noedit(
        &mut self,
        id: &[u8; 3],
        xpos: Pos,
        ypos: Pos,
        zpos: Pos,
        area: Area,
        border: Border,
        padding: Padding,
        value: &[Option<char>],
    ) -> (r: Result<(), TreeError>)
        requires
            old(self).wf(),
        ensures
            id[2] % 2 == 0 ==> r == Err::<(), TreeError>(TreeError::IdError(IdError::KindMismatch))
                && *final(self) == *old(self),
            id[2] % 2 != 0 && !old(self).spec_has_container([id[0], id[1]]) ==> r == Err::<
                (),
                TreeError,
            >(TreeError::ParentNotFound) && *final(self) == *old(self),
            id[2] % 2 != 0 && old(self).spec_has_container([id[0], id[1]]) ==> Term::text_outcome(
                *old(self),
                *final(self),
                [id[0], id[1]],
                |a: Container, b: Container|
                    Container::place_outcome(
                        a,
                        b,
                        *id,
                        xpos,
                        ypos,
                        area,
                        border,
                        padding,
                        value@,
                        false,
                        r,
                    ),
                r is Err,
            ),
            final(self).wf(),
    {
        if id[2] % 2 == 0 {
            return Err(TreeError::IdError(IdError::KindMismatch));
        }
        self.text_in_container(id, xpos, ypos, area, border, padding, value, false)
    }

    fn text_in_container(
        &mut self,
        id: &[u8; 3],
        xpos: Pos,
        ypos: Pos,
        area: Area,
        border: Border,
        padding: Padding,
        value: &[Option<char>],
        editable: bool,
    ) -> (r: Result<(), TreeError>)
        requires
            old(self).wf(),
        ensures
            !old(self).spec_has_container([id[0], id[1]]) ==> r == Err::<(), TreeError>(
                TreeError::ParentNotFound,
            ) && *final(self) == *old(self),
            old(self).spec_has_container([id[0], id[1]]) ==> Term::text_outcome(
                *old(self),
                *final(self),
                [id[0], id[1]],
                |a: Container, b: Container|
                    Container::place_outcome(
                        a,
                        b,
                        *id,
                        xpos,
                        ypos,
                        area,
                        border,
                        padding,
                        value@,
                        editable,
                        r,
                    ),
                r is Err,
            ),
            final(self).wf(),
    {
        let k = match self.container_index(&[id[0], id[1]]) {
            Some(k) => k,
            None => return Err(TreeError::ParentNotFound),
        };
        let ghost old_t = *self;
        proof {
            assert(old_t.containers@[k as int].wf());
            assert(old_t.containers@ =~= old_t.containers@.update(k as int, old_t.containers@[k as int]));
        }
        match self.containers[k].prepare_text(
            *id,
            xpos,
            ypos,
            area,
            border,
            padding,
            value,
            editable,
        ) {
            Err(e) => Err(e),
            Ok(t) => {
                self.containers[k].append_text(t);
                proof {
                    assert(self.containers@[k as int].texts@.drop_last() =~= old_t.containers@[k as int].texts@);
                    Term::lemma_update_keeps_wf(old_t, *self, k as int, self.containers@[k as int]);
                    Term::lemma_append_keeps_focus(old_t, *self, k as int);
                }
                Ok(())
            },
        }
    }

    /// Validates an existing editable text field and appends it to the
    /// container its id's first two components name (see
    /// `Container::push_text`). A field whose id is odd or that is not
    /// marked editable is refused first, then a missing container.
    pub fn push_input(&mut self, i: Text) -> (r: Result<(), (Text, TreeError)>)
        requires
            old(self).wf(),
        ensures
            (i.id[2] % 2 != 0 || !i.editable) ==> r == Err::<(), (Text, TreeError)>(
                (i, TreeError::IdError(IdError::KindMismatch)),
            ) && *final(self) == *old(self),
            i.id[2] % 2 == 0 && i.editable && !old(self).spec_has_container([i.id[0], i.id[1]])
                ==> r == Err::<(), (Text, TreeError)>((i, TreeError::ParentNotFound))
                && *final(self) == *old(self),
            i.id[2] % 2 == 0 && i.editable && old(self).spec_has_container([i.id[0], i.id[1]])
                ==> Term::text_outcome(
                *old(self),
                *final(self),
                [i.id[0], i.id[1]],
                |a: Container, b: Container| Container::push_outcome(a, b, i, r),
                r is Err,
            ),
            final(self).wf(),
    {
        if i.id[2] % 2 != 0 || !i.editable {
            return Err((i, TreeError::IdError(IdError::KindMismatch)));
        }
        self.push_text_in_container(i)
    }

    /// Validates an existing read-only text field and appends it to the
    /// container its id's first two components name (see
    /// `Container::push_text`). A field whose id is even or that is marked
    /// editable is refused first, then a missing container.
    pub fn push_noedit(&mut self, ne: Text) -> (r: Result<(), (Text, TreeError)>)
        requires
            old(self).wf(),
        ensures
            (ne.id[2] % 2 == 0 || ne.editable) ==> r == Err::<(), (Text, TreeError)>(
                (ne, TreeError::IdError(IdError::KindMismatch)),
            ) && *final(self) == *old(self),
            ne.id[2] % 2 != 0 && !ne.editable && !old(self).spec_has_container(
                [ne.id[0], ne.id[1]],
            ) ==> r == Err::<(), (Text, TreeError)>((ne, TreeError::ParentNotFound))
                && *final(self) == *old(self),
            ne.id[2] % 2 != 0 && !ne.editable && old(self).spec_has_container(
                [ne.id[0], ne.id[1]],
            ) ==> Term::text_outcome(
                *old(self),
                *final(self),
                [ne.id[0], ne.id[1]],
                |a: Container, b: Container| Container::push_outcome(a, b, ne, r),
                r is Err,
            ),
            final(self).wf(),
    {
        if ne.id[2] % 2 == 0 || ne.editable {
            return Err((ne, TreeError::IdError(IdError::KindMismatch)));
        }
        self.push_text_in_container(ne)
    }

    fn push_text_in_container(&mut self, t: Text) -> (r: Result<(), (Text, TreeError)>)
        requires
            old(self).wf(),
        ensures
            !old(self).spec_has_container([t.id[0], t.id[1]]) ==> r == Err::<
                (),
                (Text, TreeError),
            >((t, TreeError::ParentNotFound)) && *final(self) == *old(self),
            old(self).spec_has_container([t.id[0], t.id[1]]) ==> Term::text_outcome(
                *old(self),
                *final(self),
                [t.id[0], t.id[1]],
                |a: Container, b: Container| Container::push_outcome(a, b, t, r),
                r is Err,
            ),
            final(self).wf(),
    {
        let k = match self.container_index(&[t.id[0], t.id[1]]) {
            Some(k) => k,
            None => return Err((t, TreeError::ParentNotFound)),
        };
        let ghost old_t = *self;
        proof {
            assert(old_t.containers@[k as int].wf());
            assert(old_t.containers@ =~= old_t.containers@.update(k as int, old_t.containers@[k as int]));
        }
        match self.containers[k].validate_text(t) {
            Err(p) => Err(p),
            Ok(u) => {
                self.containers[k].append_text(u);
                proof {
                    assert(self.containers@[k as int].texts@.drop_last() =~= old_t.containers@[k as int].texts@);
                    Term::lemma_update_keeps_wf(old_t, *self, k as int, self.containers@[k as int]);
                    Term::lemma_append_keeps_focus(old_t, *self, k as int);
                }
                Ok(())
            },
        }
    }
}

/// `a + b`, or the largest `u16` when the sum does not fit.
pub open spec fn sat_add(a: u16, b: u16) -> u16 {
    if a + b > u16::MAX {
        u16::MAX
    } else {
        (a + b) as u16
    }
}

impl Term {
    /// The window's well-formedness depends only on its size and its
    /// containers.
    proof fn lemma_same_children_wf(a: Term, b: Term)
        requires
            a.wf(),
            a.containers == b.containers,
            a.id == b.id,
            a.w == b.w,
            a.h == b.h,
        ensures
            b.wf(),
    {
        assert forall|k1: int, j1: int, k2: int, j2: int|
            #[trigger] b.focused_at(k1, j1) && #[trigger] b.focused_at(k2, j2) implies k1 == k2
            && j1 == j2 by {
            assert(a.focused_at(k1, j1) && a.focused_at(k2, j2));
        }
        assert forall|i: int| 0 <= i < b.containers@.len() implies {
            let c = #[trigger] b.containers@[i];
            b.child_ok(c)
        } by {
            assert(b.containers@[i] == a.containers@[i]);
        }
        assert forall|i: int, j: int|
            0 <= i < b.containers@.len() && 0 <= j < b.containers@.len() && i != j implies {
            &&& #[trigger] b.containers@[i].id != #[trigger] b.containers@[j].id
            &&& !containers_conflict(b.containers@[i], b.containers@[j])
        } by {
            assert(a.containers@[i].id != a.containers@[j].id);
        }
    }

    /// What `focus` does once the target is found at container `k`, field
    /// `j`: the focus flag is cleared everywhere in the window and set on
    /// that field and its container, nothing else changes on any child, and
    /// the window's cursor moves to the field's absolute origin plus the
    /// field's own cursor.
    pub open spec fn focus_outcome(old_t: Term, new_t: Term, k: int, j: int) -> bool {
        let t = old_t.containers@[k].texts@[j];
        &&& new_t.containers@.len() == old_t.containers@.len()
        &&& forall|m: int|
            0 <= m < old_t.containers@.len() ==> {
                let (a, b) = (#[trigger] old_t.containers@[m], new_t.containers@[m]);
                &&& container_same_but_attrs(a, b)
                &&& b.attributes@ == with_focus(a.attributes@, m == k)
                &&& forall|n: int|
                    0 <= n < a.texts@.len() ==> (#[trigger] b.texts@[n]).attributes@ == with_focus(
                        a.texts@[n].attributes@,
                        m == k && n == j,
                    )
            }
        &&& new_t.crsh == sat_add(t.ahpos, t.crsh)
        &&& new_t.crsv == sat_add(t.avpos, t.crsv)
        &&& new_t.layout == old_t.layout
        &&& new_t.id == old_t.id
        &&& new_t.w == old_t.w
        &&& new_t.h == old_t.h
        &&& new_t.properties == old_t.properties
        &&& new_t.attributes == old_t.attributes
    }

    /// Whether some text field of the window carries the focus.
    pub open spec fn spec_has_focused(&self) -> bool {
        exists|k: int, j: int|
            0 <= k < self.containers@.len() && 0 <= j < self.containers@[k].texts@.len()
                && #[trigger] self.containers@[k].texts@[j].attributes@.contains("focused"@)
    }

    /// The first text field carrying the focus, as container and field
    /// positions.
    pub fn find_focused(&self) -> (r: Option<(usize, usize)>)
        ensures
            match r {
                Some((k, j)) => k < self.containers@.len() && j < self.containers@[k as int].texts@.len()
                    && self.containers@[k as int].texts@[j as int].attributes@.contains("focused"@),
                None => !self.spec_has_focused(),
            },
    {
        let mut k: usize = 0;
        while k < self.containers.len()
            invariant
                0 <= k <= self.containers@.len(),
                forall|a: int, j: int|
                    0 <= a < k && 0 <= j < self.containers@[a].texts@.len()
                        ==> !#[trigger] self.containers@[a].texts@[j].attributes@.contains("focused"@),
            decreases self.containers@.len() - k,
        {
            match self.containers[k].focused_text() {
                Some(j) => {
                    return Some((k, j));
                },
                None => {},
            }
            k += 1;
        }
        None
    }

    /// The absolute origin of the text field carrying the focus.
    pub fn focused(&self) -> (r: Result<[u16; 2], TreeError>)
        ensures
            r is Ok <==> self.spec_has_focused(),
            r matches Err(e) ==> e == TreeError::BadID,
            r matches Ok(p) ==> exists|k: int, j: int|
                0 <= k < self.containers@.len() && 0 <= j < self.containers@[k].texts@.len()
                    && #[trigger] self.containers@[k].texts@[j].attributes@.contains("focused"@)
                    && p[0] == self.containers@[k].texts@[j].ahpos && p[1]
                    == self.containers@[k].texts@[j].avpos,
    {
        match self.find_focused() {
            Some((k, j)) => {
                let t = &self.containers[k].texts[j];
                Ok([t.ahpos, t.avpos])
            },
            None => Err(TreeError::BadID),
        }
    }

    /// Moves the window's cursor to the focused text field's absolute
    /// origin plus that field's own cursor.
    pub fn sync_cursor(&mut self) -> (r: Result<(), TreeError>)
        ensures
            r is Ok <==> old(self).spec_has_focused(),
            r matches Err(e) ==> e == TreeError::NoFocusedComp && *final(self) == *old(self),
            r is Ok ==> exists|k: int, j: int|
                0 <= k < old(self).containers@.len() && 0 <= j < old(self).containers@[k].texts@.len()
                    && #[trigger] old(self).containers@[k].texts@[j].attributes@.contains(
                    "focused"@,
                ) && final(self).crsh == sat_add(
                    old(self).containers@[k].texts@[j].ahpos,
                    old(self).containers@[k].texts@[j].crsh,
                ) && final(self).crsv == sat_add(
                    old(self).containers@[k].texts@[j].avpos,
                    old(self).containers@[k].texts@[j].crsv,
                ),
            r is Ok ==> final(self).containers == old(self).containers && final(self).w == old(
                self,
            ).w && final(self).h == old(self).h && final(self).id == old(self).id,
            old(self).wf() ==> final(self).wf(),
    {
        match self.find_focused() {
            Some((k, j)) => {
                let h = self.containers[k].texts[j].ahpos.saturating_add(self.containers[k].texts[j].crsh);
                let v = self.containers[k].texts[j].avpos.saturating_add(self.containers[k].texts[j].crsv);
                self.crsh = h;
                self.crsv = v;
                proof {
                    if old(self).wf() {
                        Term::lemma_same_children_wf(*old(self), *self);
                    }
                }
                Ok(())
            },
            None => Err(TreeError::NoFocusedComp),
        }
    }

    /// Gives the focus to the text field with this id: the flag is cleared
    /// everywhere in the window and set on that field and its container, and
    /// the cursor is synced. An id that names no text field of the window is
    /// refused and the focus stays where it was.
    pub fn focus(&mut self, id: &[u8; 3]) -> (r: Result<(), TreeError>)
        requires
            old(self).wf(),
        ensures
            r is Ok <==> old(self).spec_has_text(*id),
            r matches Err(e) ==> e == TreeError::BadID && *final(self) == *old(self),
            r is Ok ==> exists|k: int, j: int|
                0 <= k < old(self).containers@.len() && 0 <= j < old(
                    self,
                ).containers@[k].texts@.len() && #[trigger] old(self).containers@[k].texts@[j].id
                    == *id && Term::focus_outcome(*old(self), *final(self), k, j),
            final(self).wf(),
    {
        let ci = match self.container_index(&[id[0], id[1]]) {
            Some(c) => c,
            None => {
                proof {
                    if self.spec_has_text(*id) {
                        let k = choose|k: int|
                            0 <= k < self.containers@.len() && (#[trigger] self.containers@[k]).id
                                == [id[0], id[1]] && self.containers@[k].spec_has_text(*id);
                        assert(self.containers@[k].id == [id[0], id[1]]);
                    }
                }
                return Err(TreeError::BadID);
            },
        };
        let tj = match self.containers[ci].text_index(id) {
            Some(j) => j,
            None => {
                proof {
                    if self.spec_has_text(*id) {
                        let k = choose|k: int|
                            0 <= k < self.containers@.len() && (#[trigger] self.containers@[k]).id
                                == [id[0], id[1]] && self.containers@[k].spec_has_text(*id);
                        if k != ci {
                            assert(self.containers@[k].id != self.containers@[ci as int].id);
                        }
                    }
                }
                return Err(TreeError::BadID);
            },
        };
        let n = self.containers.len();
        let mut m: usize = 0;
        while m < n
            invariant
                0 <= m <= n,
                n == old(self).containers@.len(),
                self.containers@.len() == n,
                ci < n,
                tj < old(self).containers@[ci as int].texts@.len(),
                self.layout_ok(),
                term_same_frame(*old(self), *self),
                forall|p: int|
                    0 <= p < m ==> {
                        let (a, b) = (#[trigger] old(self).containers@[p], self.containers@[p]);
                        &&& container_same_but_attrs(a, b)
                        &&& b.attributes@ == with_focus(a.attributes@, p == ci)
                        &&& forall|q: int|
                            0 <= q < a.texts@.len() ==> (#[trigger] b.texts@[q]).attributes@
                                == with_focus(a.texts@[q].attributes@, p == ci && q == tj)
                    },
                forall|p: int| m <= p < n ==> #[trigger] self.containers@[p] == old(self).containers@[p],
            decreases n - m,
        {
            let target = if m == ci {
                Some(tj)
            } else {
                None
            };
            let ghost before = *self;
            self.containers[m].set_focus(target);
            proof {
                Term::lemma_update_keeps_wf(before, *self, m as int, self.containers@[m as int]);
                let a = old(self).containers@[m as int];
                let b = self.containers@[m as int];
                assert(a == before.containers@[m as int]);
                assert forall|q: int| 0 <= q < a.texts@.len() implies (#[trigger] b.texts@[q]).attributes@
                    == with_focus(a.texts@[q].attributes@, m == ci && q == tj) by {
                    if m == ci {
                        assert(target == Some(tj));
                    } else {
                        assert(target is None);
                    }
                }
                assert forall|p: int| 0 <= p < m + 1 implies {
                    let (a, b) = (#[trigger] old(self).containers@[p], self.containers@[p]);
                    &&& container_same_but_attrs(a, b)
                    &&& b.attributes@ == with_focus(a.attributes@, p == ci)
                    &&& forall|q: int|
                        0 <= q < a.texts@.len() ==> (#[trigger] b.texts@[q]).attributes@
                            == with_focus(a.texts@[q].attributes@, p == ci && q == tj)
                } by {
                    if p < m {
                        assert(self.containers@[p] == before.containers@[p]);
                    }
                }
            }
            m += 1;
        }
        let h = self.containers[ci].texts[tj].ahpos.saturating_add(self.containers[ci].texts[tj].crsh);
        let v = self.containers[ci].texts[tj].avpos.saturating_add(self.containers[ci].texts[tj].crsv);
        self.crsh = h;
        self.crsv = v;
        proof {
            assert(old(self).containers@[ci as int].texts@[tj as int].id == *id);
            assert forall|k1: int, j1: int, k2: int, j2: int|
                #[trigger] self.focused_at(k1, j1) && #[trigger] self.focused_at(
                    k2,
                    j2,
                ) implies k1 == k2 && j1 == j2 by {
                let a1 = old(self).containers@[k1];
                let a2 = old(self).containers@[k2];
                assert(self.containers@[k1].texts@[j1].attributes@ == with_focus(
                    a1.texts@[j1].attributes@,
                    k1 == ci && j1 == tj,
                ));
                assert(self.containers@[k2].texts@[j2].attributes@ == with_focus(
                    a2.texts@[j2].attributes@,
                    k2 == ci && j2 == tj,
                ));
            }
        }
        Ok(())
    }
}

/// The number of text fields in `ts` of a kind: editable (0), read-only
/// (1) or any (2).
pub open spec fn count_texts(ts: Seq<Text>, kind: int) -> nat
    decreases ts.len(),
{
    if ts.len() == 0 {
        0
    } else {
        let t = ts.last();
        count_texts(ts.drop_last(), kind) + if kind == 2 || t.id[2] % 2 == kind {
            1nat
        } else {
            0nat
        }
    }
}

/// The number of text fields of a kind in all of `cs`.
pub open spec fn count_all(cs: Seq<Container>, kind: int) -> nat
    decreases cs.len(),
{
    if cs.len() == 0 {
        0
    } else {
        count_all(cs.drop_last(), kind) + count_texts(cs.last().texts@, kind)
    }
}

/// Counts the text fields of a kind in `ts`.
fn count_kind(ts: &Vec<Text>, kind: u8) -> (r: usize)
    requires
        kind <= 2,
    ensures
        r == count_texts(ts@, kind as int),
{
    let mut n: usize = 0;
    let mut i: usize = 0;
    while i < ts.len()
        invariant
            0 <= i <= ts@.len(),
            kind <= 2,
            n == count_texts(ts@.take(i as int), kind as int),
            n <= i,
        decreases ts@.len() - i,
    {
        assert(ts@.take(i + 1).drop_last() =~= ts@.take(i as int));
        if kind == 2 || ts[i].id[2] % 2 == kind {
            n += 1;
        }
        i += 1;
    }
    assert(ts@.take(i as int) =~= ts@);
    n
}

impl Term {
    /// Counts the text fields of a kind in the whole window.
    fn count(&self, kind: u8) -> (r: usize)
        requires
            kind <= 2,
            count_all(self.containers@, kind as int) <= usize::MAX,
        ensures
            r == count_all(self.containers@, kind as int),
    {
        let mut n: usize = 0;
        let mut i: usize = 0;
        while i < self.containers.len()
            invariant
                0 <= i <= self.containers@.len(),
                kind <= 2,
                n == count_all(self.containers@.take(i as int), kind as int),
                count_all(self.containers@, kind as int) <= usize::MAX,
            decreases self.containers@.len() - i,
        {
            assert(self.containers@.take(i + 1).drop_last() =~= self.containers@.take(i as int));
            proof {
                Term::lemma_count_prefix(self.containers@, (i + 1) as int, kind as int);
            }
            let c = count_kind(&self.containers[i].texts, kind);
            n = n + c;
            i += 1;
        }
        assert(self.containers@.take(i as int) =~= self.containers@);
        n
    }

    /// A prefix holds no more text fields than the whole.
    proof fn lemma_count_prefix(cs: Seq<Container>, i: int, kind: int)
        requires
            0 <= i <= cs.len(),
        ensures
            count_all(cs.take(i), kind) <= count_all(cs, kind),
        decreases cs.len() - i,
    {
        if i < cs.len() {
            Term::lemma_count_prefix(cs, i + 1, kind);
            assert(cs.take(i + 1).drop_last() =~= cs.take(i));
        } else {
            assert(cs.take(i) =~= cs);
        }
    }

    /// The number of editable text fields in the window.
    pub fn ilen(&self) -> (r: usize)
        requires
            count_all(self.containers@, 0) <= usize::MAX,
        ensures
            r == count_all(self.containers@, 0),
    {
        self.count(0)
    }

    /// The number of read-only text fields in the window.
    pub fn nelen(&self) -> (r: usize)
        requires
            count_all(self.containers@, 1) <= usize::MAX,
        ensures
            r == count_all(self.containers@, 1),
    {
        self.count(1)
    }

    /// The number of text fields in the window.
    pub fn tlen(&self) -> (r: usize)
        requires
            count_all(self.containers@, 2) <= usize::MAX,
        ensures
            r == count_all(self.containers@, 2),
    {
        self.count(2)
    }

    /// The first container id (second component) that no container of the
    /// window uses, filling gaps first; `None` when all are taken.
    pub fn assign_container_id(&self) -> (r: Option<u8>)
        ensures
            match r {
                Some(x) => is_first_free(
                    self.containers@.map_values(|c: Container| c.id[1]),
                    0,
                    1,
                    x as int,
                ),
                None => all_taken(self.containers@.map_values(|c: Container| c.id[1]), 0, 1),
            },
    {
        let mut used: Vec<u8> = Vec::new();
        let mut i: usize = 0;
        while i < self.containers.len()
            invariant
                0 <= i <= self.containers@.len(),
                used@ == self.containers@.take(i as int).map_values(|c: Container| c.id[1]),
            decreases self.containers@.len() - i,
        {
            used.push(self.containers[i].id[1]);
            i += 1;
            assert(used@ =~= self.containers@.take(i as int).map_values(|c: Container| c.id[1]));
        }
        assert(self.containers@.take(i as int) =~= self.containers@);
        first_free_id(&used, 0, 1)
    }

    /// The first free even text id in container `[term, cont]`; `None` when
    /// the container does not exist or all are taken.
    pub fn assign_input_id(&self, term: u8, cont: u8) -> (r: Option<u8>)
        ensures
            r matches Some(x) ==> exists|k: int|
                0 <= k < self.containers@.len() && #[trigger] self.containers@[k].id == [term, cont]
                    && is_first_free(
                    self.containers@[k].texts@.map_values(|t: Text| t.id[2]),
                    0,
                    2,
                    x as int,
                ),
            r is None && self.spec_has_container([term, cont]) ==> exists|k: int|
                0 <= k < self.containers@.len() && #[trigger] self.containers@[k].id == [term, cont]
                    && all_taken(self.containers@[k].texts@.map_values(|t: Text| t.id[2]), 0, 2),
            !self.spec_has_container([term, cont]) ==> r is None,
    {
        match self.container_index(&[term, cont]) {
            Some(k) => self.containers[k].generate_id(0),
            None => None,
        }
    }

    /// The first free odd text id in container `[term, cont]`; `None` when
    /// the container does not exist or all are taken.
    pub fn assign_noedit_id(&self, term: u8, cont: u8) -> (r: Option<u8>)
        ensures
            r matches Some(x) ==> exists|k: int|
                0 <= k < self.containers@.len() && #[trigger] self.containers@[k].id == [term, cont]
                    && is_first_free(
                    self.containers@[k].texts@.map_values(|t: Text| t.id[2]),
                    1,
                    2,
                    x as int,
                ),
            r is None && self.spec_has_container([term, cont]) ==> exists|k: int|
                0 <= k < self.containers@.len() && #[trigger] self.containers@[k].id == [term, cont]
                    && all_taken(self.containers@[k].texts@.map_values(|t: Text| t.id[2]), 1, 2),
            !self.spec_has_container([term, cont]) ==> r is None,
    {
        match self.container_index(&[term, cont]) {
            Some(k) => self.containers[k].generate_id(1),
            None => None,
        }
    }

    /// Builds a container from a builder, in this window's size, and pushes
    /// it (see `push_container`); on refusal only the error is returned.
    pub fn container_from_builder(&mut self, builder: &mut ContainerBuilder) -> (r: Result<
        (),
        TreeError,
    >)
        requires
            old(self).wf(),
        ensures
            ({
                let b = *old(builder);
                let (w, h) = spec_area(b.area, old(self).w, old(self).h);
                let dw = w + spec_extra_w(b.border, b.padding);
                let dh = h + spec_extra_h(b.border, b.padding);
                let hpos = spec_anchor_or_start(b.hpos, old(self).w as int, dw);
                let vpos = spec_anchor_or_start(b.vpos, old(self).h as int, dh);
                let err = old(self).spec_container_error(
                    b.id,
                    b.border,
                    b.padding,
                    w as int,
                    h as int,
                    hpos,
                    vpos,
                    true,
                );
                &&& r is Ok <==> err is None
                &&& r matches Err(e) ==> err == Some(e) && *final(self) == *old(self)
                &&& r is Ok ==> term_same_frame(*old(self), *final(self))
                    && final(self).containers@.drop_last() == old(self).containers@ && ({
                    let c = final(self).containers@.last();
                    &&& final(self).containers@.len() == old(self).containers@.len() + 1
                    &&& c.id == b.id
                    &&& c.hpos == hpos
                    &&& c.vpos == vpos
                    &&& c.w == w
                    &&& c.h == h
                    &&& c.border == b.border
                    &&& c.padding == b.padding
                    &&& c.layout == b.layout
                })
            }),
            *final(builder) == *old(builder),
            final(self).wf(),
    {
        let c = builder.build(self.w, self.h);
        match self.push_container(c) {
            Ok(()) => {
                assert(self.containers@.drop_last() =~= old(self).containers@);
                Ok(())
            },
            Err(p) => Err(p.1),
        }
    }

    /// Builds an editable field from a builder, in the content area of the
    /// container its id names, and pushes it (see `push_input`); a missing
    /// container is refused before the builder moves on.
    pub fn input_from_builder(&mut self, builder: &mut TextBuilder) -> (r: Result<(), TreeError>)
        requires
            old(self).wf(),
        ensures
            !old(self).spec_has_container([old(builder).id[0], old(builder).id[1]]) ==> r == Err::<
                (),
                TreeError,
            >(TreeError::ParentNotFound) && *final(self) == *old(self) && *final(builder) == *old(
                builder,
            ),
            old(self).spec_has_container([old(builder).id[0], old(builder).id[1]]) && old(builder).id[2] % 2 != 0 ==> r
                == Err::<(), TreeError>(TreeError::IdError(IdError::KindMismatch)) && *final(self)
                == *old(self),
            old(self).spec_has_container([old(builder).id[0], old(builder).id[1]]) && old(builder).id[2] % 2 == 0
                ==> exists|k: int|
                0 <= k < old(self).containers@.len() && #[trigger] old(self).containers@[k].id == [
                    old(builder).id[0],
                    old(builder).id[1],
                ] && ({
                    let b = *old(builder);
                    let c = old(self).containers@[k];
                    let (w, h) = spec_area(b.area, c.w, c.h);
                    let dw = w + spec_extra_w(b.border, b.padding);
                    let dh = h + spec_extra_h(b.border, b.padding);
                    let hpos = spec_anchor_or_start(b.hpos, c.w as int, dw);
                    let vpos = spec_anchor_or_start(b.vpos, c.h as int, dh);
                    let err = c.spec_place_error(
                        b.id,
                        true,
                        b.border,
                        b.padding,
                        w as int,
                        h as int,
                        hpos,
                        vpos,
                        w * h,
                    );
                    &&& r is Ok <==> err is None
                    &&& r matches Err(e) ==> err == Some(e) && *final(self) == *old(self)
                    &&& r is Ok ==> term_same_frame(*old(self), *final(self))
                        && final(self).containers@ == old(self).containers@.update(
                        k,
                        final(self).containers@[k],
                    ) && same_frame(c, final(self).containers@[k])
                        && final(self).containers@[k].texts@.len() == c.texts@.len() + 1
                        && final(self).containers@[k].texts@.drop_last() == c.texts@ && ({
                        let t = final(self).containers@[k].texts@.last();
                        &&& t.id == b.id
                        &&& t.layer == b.layer
                        &&& t.w == w
                        &&& t.h == h
                        &&& t.hpos == hpos
                        &&& t.vpos == vpos
                        &&& t.ahpos == c.spec_abs(hpos as u16, vpos as u16).0
                        &&& t.avpos == c.spec_abs(hpos as u16, vpos as u16).1
                        &&& t.border == b.border
                        &&& t.padding == b.padding
                        &&& t.editable == true
                        &&& t.value@ == spec_buffer(Seq::<Option<char>>::empty(), w * h)
                        &&& t.crsh == 0
                        &&& t.crsv == 0
                        &&& t.attributes@ == Set::<Seq<char>>::empty()
                    })
                }),
            old(self).spec_has_container([old(builder).id[0], old(builder).id[1]]) ==> *final(builder)
                == (TextBuilder {
                id: [
                    old(builder).id[0],
                    old(builder).id[1],
                    if old(builder).id[2] < 254 {
                        (old(builder).id[2] + 2) as u8
                    } else {
                        old(builder).id[2]
                    },
                ],
                ..*old(builder)
            }),
            final(self).wf(),
    {
        let k = match self.container_index(&builder.cid()) {
            Some(k) => k,
            None => return Err(TreeError::ParentNotFound),
        };
        let ghost before = *self;
        let t = builder.build(self.containers[k].w, self.containers[k].h);
        let ghost t0 = t;
        let r = match self.push_input(t) {
            Ok(()) => Ok(()),
            Err(p) => Err(p.1),
        };
        proof {
            if before.spec_has_container([t0.id[0], t0.id[1]]) && (t0.id[2] % 2 == 0) == true {
                let k2 = choose|k2: int|
                    0 <= k2 < before.containers@.len() && #[trigger] before.containers@[k2].id == [
                        t0.id[0],
                        t0.id[1],
                    ] && self.containers@ == before.containers@.update(k2, self.containers@[k2]);
                if k2 != k {
                    assert(before.containers@[k2].id != before.containers@[k as int].id);
                }                if r is Ok {
                    assert(self.containers@[k as int].texts@.drop_last() =~= before.containers@[k as int].texts@);
                }
            }
        }
        r
    }

    /// Builds a field from a builder, in the content area of the container
    /// its id names, and pushes it as read-only (see `push_noedit`); a
    /// missing container is refused before the builder moves on.
    pub fn noedit_from_builder(&mut self, builder: &mut TextBuilder) -> (r: Result<(), TreeError>)
        requires
            old(self).wf(),
        ensures
            !old(self).spec_has_container([old(builder).id[0], old(builder).id[1]]) ==> r == Err::<
                (),
                TreeError,
            >(TreeError::ParentNotFound) && *final(self) == *old(self) && *final(builder) == *old(
                builder,
            ),
            old(self).spec_has_container([old(builder).id[0], old(builder).id[1]]) && old(builder).id[2] % 2 == 0 ==> r
                == Err::<(), TreeError>(TreeError::IdError(IdError::KindMismatch)) && *final(self)
                == *old(self),
            old(self).spec_has_container([old(builder).id[0], old(builder).id[1]]) && old(builder).id[2] % 2 != 0
                ==> exists|k: int|
                0 <= k < old(self).containers@.len() && #[trigger] old(self).containers@[k].id == [
                    old(builder).id[0],
                    old(builder).id[1],
                ] && ({
                    let b = *old(builder);
                    let c = old(self).containers@[k];
                    let (w, h) = spec_area(b.area, c.w, c.h);
                    let dw = w + spec_extra_w(b.border, b.padding);
                    let dh = h + spec_extra_h(b.border, b.padding);
                    let hpos = spec_anchor_or_start(b.hpos, c.w as int, dw);
                    let vpos = spec_anchor_or_start(b.vpos, c.h as int, dh);
                    let err = c.spec_place_error(
                        b.id,
                        false,
                        b.border,
                        b.padding,
                        w as int,
                        h as int,
                        hpos,
                        vpos,
                        w * h,
                    );
                    &&& r is Ok <==> err is None
                    &&& r matches Err(e) ==> err == Some(e) && *final(self) == *old(self)
                    &&& r is Ok ==> term_same_frame(*old(self), *final(self))
                        && final(self).containers@ == old(self).containers@.update(
                        k,
                        final(self).containers@[k],
                    ) && same_frame(c, final(self).containers@[k])
                        && final(self).containers@[k].texts@.len() == c.texts@.len() + 1
                        && final(self).containers@[k].texts@.drop_last() == c.texts@ && ({
                        let t = final(self).containers@[k].texts@.last();
                        &&& t.id == b.id
                        &&& t.layer == b.layer
                        &&& t.w == w
                        &&& t.h == h
                        &&& t.hpos == hpos
                        &&& t.vpos == vpos
                        &&& t.ahpos == c.spec_abs(hpos as u16, vpos as u16).0
                        &&& t.avpos == c.spec_abs(hpos as u16, vpos as u16).1
                        &&& t.border == b.border
                        &&& t.padding == b.padding
                        &&& t.editable == false
                        &&& t.value@ == spec_buffer(Seq::<Option<char>>::empty(), w * h)
                        &&& t.crsh == 0
                        &&& t.crsv == 0
                        &&& t.attributes@ == Set::<Seq<char>>::empty()
                    })
                }),
            old(self).spec_has_container([old(builder).id[0], old(builder).id[1]]) ==> *final(builder)
                == (TextBuilder {
                id: [
                    old(builder).id[0],
                    old(builder).id[1],
                    if old(builder).id[2] < 254 {
                        (old(builder).id[2] + 2) as u8
                    } else {
                        old(builder).id[2]
                    },
                ],
                ..*old(builder)
            }),
            final(self).wf(),
    {
        let k = match self.container_index(&builder.cid()) {
            Some(k) => k,
            None => return Err(TreeError::ParentNotFound),
        };
        let ghost before = *self;
        let t = builder.build(self.containers[k].w, self.containers[k].h);
        let ghost t0 = t;
        let r = match self.push_noedit(t) {
            Ok(()) => Ok(()),
            Err(p) => Err(p.1),
        };
        proof {
            if before.spec_has_container([t0.id[0], t0.id[1]]) && (t0.id[2] % 2 == 0) == false {
                let k2 = choose|k2: int|
                    0 <= k2 < before.containers@.len() && #[trigger] before.containers@[k2].id == [
                        t0.id[0],
                        t0.id[1],
                    ] && self.containers@ == before.containers@.update(k2, self.containers@[k2]);
                if k2 != k {
                    assert(before.containers@[k2].id != before.containers@[k as int].id);
                }                if r is Ok {
                    assert(self.containers@[k as int].texts@.drop_last() =~= before.containers@[k as int].texts@);
                }
            }
        }
        r
    }
}

impl Term {
    /// Checks at run time that at most one text field of the window carries
    /// the focus flag.
    pub fn single_focus(&self) -> (r: bool)
        ensures
            r == self.focus_unique(),
    {
        let mut seen: Option<(usize, usize)> = None;
        let mut k: usize = 0;
        while k < self.containers.len()
            invariant
                0 <= k <= self.containers@.len(),
                match seen {
                    Some((a, b)) => a < k && self.focused_at(a as int, b as int),
                    None => true,
                },
                forall|a: int, b: int|
                    #[trigger] self.focused_at(a, b) && a < k ==> (seen matches Some((sa, sb)) && sa
                        as int == a && sb as int == b),
            decreases self.containers@.len() - k,
        {
            let c = &self.containers[k];
            let mut j: usize = 0;
            while j < c.texts.len()
                invariant
                    0 <= j <= c.texts@.len(),
                    k < self.containers@.len(),
                    *c == self.containers@[k as int],
                    match seen {
                        Some((a, b)) => (a < k || (a == k && b < j)) && self.focused_at(a as int, b as int),
                        None => true,
                    },
                    forall|a: int, b: int|
                        #[trigger] self.focused_at(a, b) && (a < k || (a == k && b < j))
                            ==> (seen matches Some((sa, sb)) && sa as int == a && sb as int == b),
                decreases c.texts@.len() - j,
            {
                if c.texts[j].is_focused() {
                    assert(self.focused_at(k as int, j as int));
                    match seen {
                        Some((a, b)) => {
                            assert(self.focused_at(a as int, b as int));
                            assert(!(a == k && b == j));
                            return false;
                        },
                        None => {},
                    }
                    seen = Some((k, j));
                }
                j += 1;
            }
            k += 1;
        }
        proof {
            assert forall|k1: int, j1: int, k2: int, j2: int|
                #[trigger] self.focused_at(k1, j1) && #[trigger] self.focused_at(
                    k2,
                    j2,
                ) implies k1 == k2 && j1 == j2 by {
                assert(k1 < self.containers@.len() && k2 < self.containers@.len());
            }
        }
        true
    }

    /// Checks at run time that the window is well formed (`wf`).
    pub fn is_well_formed(&self) -> (r: bool)
        ensures
            r == self.wf(),
    {
        let mut i: usize = 0;
        while i < self.containers.len()
            invariant
                0 <= i <= self.containers@.len(),
                forall|k: int|
                    0 <= k < i ==> {
                        let c = #[trigger] self.containers@[k];
                        self.child_ok(c)
                    },
                forall|a: int, b: int|
                    0 <= a < i && 0 <= b < i && a != b ==> {
                        &&& #[trigger] self.containers@[a].id != #[trigger] self.containers@[b].id
                        &&& !containers_conflict(self.containers@[a], self.containers@[b])
                    },
            decreases self.containers@.len() - i,
        {
            let c = &self.containers[i];
            if c.id[0] != self.id || !c.is_well_formed() || self.check_area_origin(c) {
                assert(!({
                    let c = self.containers@[i as int];
                    self.child_ok(c)
                }));
                return false;
            }
            let ea = resolve_wh(&c.border, &c.padding);
            let mut j: usize = 0;
            while j < i
                invariant
                    0 <= j <= i < self.containers@.len(),
                    *c == self.containers@[i as int],
                    ea[0] == spec_extra_w(c.border, c.padding),
                    ea[1] == spec_extra_h(c.border, c.padding),
                    forall|b: int|
                        0 <= b < j ==> {
                            &&& self.containers@[i as int].id != #[trigger] self.containers@[b].id
                            &&& !containers_conflict(self.containers@[i as int], self.containers@[b])
                        },
                decreases i - j,
            {
                let u = &self.containers[j];
                if u.id[0] == c.id[0] && u.id[1] == c.id[1] {
                    assert(self.containers@[j as int].id =~= self.containers@[i as int].id);
                    return false;
                }
                let eb = resolve_wh(&u.border, &u.padding);
                if rects_conflict(
                    c.hpos as u32,
                    c.vpos as u32,
                    c.w as u32 + ea[0],
                    c.h as u32 + ea[1],
                    u.hpos as u32,
                    u.vpos as u32,
                    u.w as u32 + eb[0],
                    u.h as u32 + eb[1],
                ) {
                    assert(containers_conflict(self.containers@[i as int], self.containers@[j as int]));
                    return false;
                }
                assert(self.containers@[i as int].id != self.containers@[j as int].id) by {
                    if self.containers@[i as int].id == self.containers@[j as int].id {
                        assert(u.id[0] == c.id[0] && u.id[1] == c.id[1]);
                    }
                }
                assert forall|b: int| 0 <= b < j + 1 implies {
                    &&& self.containers@[i as int].id != #[trigger] self.containers@[b].id
                    &&& !containers_conflict(self.containers@[i as int], self.containers@[b])
                } by {
                    if b == j {
                        assert(self.containers@[b] == self.containers@[j as int]);
                    }
                }
                j += 1;
            }
            assert forall|a: int, b: int|
                0 <= a < i + 1 && 0 <= b < i + 1 && a != b implies {
                &&& #[trigger] self.containers@[a].id != #[trigger] self.containers@[b].id
                &&& !containers_conflict(self.containers@[a], self.containers@[b])
            } by {
                if a == i {
                    assert(self.containers@[a].id != self.containers@[b].id);
                } else if b == i {
                    assert(self.containers@[i as int].id != self.containers@[a].id);
                    assert(!containers_conflict(self.containers@[i as int], self.containers@[a]));
                }
            }
            i += 1;
        }
        self.single_focus()
    }
}

impl LayoutRules for Term {
    open spec fn spec_layout(&self) -> Layout {
        self.layout
    }

    fn is_canvas(&self) -> (r: bool) {
        self.layout.is_canvas()
    }

    fn is_flex(&self) -> (r: bool) {
        self.layout.is_flex()
    }

    fn is_grid(&self) -> (r: bool) {
        self.layout.is_grid()
    }
}

} // verus!
