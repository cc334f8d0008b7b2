use vstd::prelude::*;

use crate::border::Border;
use crate::container::{text_focused, texts_conflict, Container};
use crate::errors::{IdError, TreeError};
use crate::geometry::{spec_rects_conflict, spec_text_abs_origin};
use crate::padding::Padding;
use crate::term::{containers_conflict, Term};
use crate::tree::ComponentTree;

verus! {

/// In a well-formed tree no two windows share an id; in a well-formed
/// window no two containers share an id, and in each of its containers no
/// two text fields share an id.
pub proof fn lemma_sibling_ids_unique(tree: ComponentTree)
    requires
        tree.wf(),
    ensures
        forall|i: int, j: int|
            0 <= i < tree.spec_terms().len() && 0 <= j < tree.spec_terms().len() && i != j
                ==> #[trigger] tree.spec_terms()[i].id != #[trigger] tree.spec_terms()[j].id,
        forall|i: int, a: int, b: int|
            0 <= i < tree.spec_terms().len() && 0 <= a < tree.spec_terms()[i].containers@.len() && 0
                <= b < tree.spec_terms()[i].containers@.len() && a != b
                ==> #[trigger] tree.spec_terms()[i].containers@[a].id
                != #[trigger] tree.spec_terms()[i].containers@[b].id,
        forall|i: int, k: int, a: int, b: int|
            0 <= i < tree.spec_terms().len() && 0 <= k < tree.spec_terms()[i].containers@.len() && 0
                <= a < tree.spec_terms()[i].containers@[k].texts@.len() && 0 <= b
                < tree.spec_terms()[i].containers@[k].texts@.len() && a != b
                ==> #[trigger] tree.spec_terms()[i].containers@[k].texts@[a].id
                != #[trigger] tree.spec_terms()[i].containers@[k].texts@[b].id,
{
    assert forall|i: int, a: int, b: int|
        0 <= i < tree.spec_terms().len() && 0 <= a < tree.spec_terms()[i].containers@.len() && 0
            <= b < tree.spec_terms()[i].containers@.len() && a != b implies #[trigger] tree.spec_terms()[i].containers@[a].id
        != #[trigger] tree.spec_terms()[i].containers@[b].id by {
        assert(tree.spec_terms()[i].wf());
    }
    assert forall|i: int, k: int, a: int, b: int|
        0 <= i < tree.spec_terms().len() && 0 <= k < tree.spec_terms()[i].containers@.len() && 0
            <= a < tree.spec_terms()[i].containers@[k].texts@.len() && 0 <= b
            < tree.spec_terms()[i].containers@[k].texts@.len() && a
            != b implies #[trigger] tree.spec_terms()[i].containers@[k].texts@[a].id
        != #[trigger] tree.spec_terms()[i].containers@[k].texts@[b].id by {
        assert(tree.spec_terms()[i].wf());
        assert(tree.spec_terms()[i].containers@[k].wf());
    }
}

/// A window that already holds a container with some id refuses a new
/// container with that id, whatever its geometry, border, padding or
/// children, with the id error, before any other check; the refusing
/// insertion leaves the window as it was (see `Term::container` and
/// `Term::push_container`).
pub proof fn lemma_duplicate_container_refused(
    t: Term,
    id: [u8; 2],
    border: Border,
    padding: Padding,
    w: int,
    h: int,
    hpos: int,
    vpos: int,
    children_ok: bool,
)
    requires
        t.spec_has_container(id),
    ensures
        t.spec_container_error(id, border, padding, w, h, hpos, vpos, children_ok) == Some(
            TreeError::IdError(IdError::IdAlreadyTaken),
        ),
{
}

/// A container that already holds a text field with some id refuses a new
/// field with that id and the matching kind, whatever its geometry, border,
/// padding or value, with the id error; the refusing insertion leaves the
/// container as it was (see `Container::place_text` and
/// `Container::push_text`).
pub proof fn lemma_duplicate_text_refused(
    c: Container,
    id: [u8; 3],
    border: Border,
    padding: Padding,
    w: int,
    h: int,
    hpos: int,
    vpos: int,
    value_len: int,
)
    requires
        c.spec_has_text(id),
        id[0] == c.id[0],
        id[1] == c.id[1],
    ensures
        c.spec_place_error(id, id[2] % 2 == 0, border, padding, w, h, hpos, vpos, value_len)
            == Some(TreeError::IdError(IdError::IdAlreadyTaken)),
{
}

/// Every container of a well-formed window carries the window's id as the
/// first component of its own, starts inside the window, and its decorated
/// box (content, border and padding) ends inside it, on both axes
/// independently.
pub proof fn lemma_containment(t: Term)
    requires
        t.wf(),
    ensures
        forall|k: int|
            0 <= k < t.containers@.len() ==> {
                let c = #[trigger] t.containers@[k];
                &&& c.id[0] == t.id
                &&& 0 <= c.hpos && 0 <= c.vpos
                &&& c.hpos + c.spec_dw() <= t.w
                &&& c.vpos + c.spec_dh() <= t.h
            },
{
    assert forall|k: int| 0 <= k < t.containers@.len() implies {
        let c = #[trigger] t.containers@[k];
        &&& c.id[0] == t.id
        &&& 0 <= c.hpos && 0 <= c.vpos
        &&& c.hpos + c.spec_dw() <= t.w
        &&& c.vpos + c.spec_dh() <= t.h
    } by {
        assert(t.child_ok(t.containers@[k]));
    }
}

/// No two sibling containers of a well-formed window overlap with their
/// decorated boxes, and no two sibling text fields of one of its containers
/// do.
pub proof fn lemma_no_overlap(t: Term)
    requires
        t.wf(),
    ensures
        forall|a: int, b: int|
            0 <= a < t.containers@.len() && 0 <= b < t.containers@.len() && a != b
                ==> !spec_rects_conflict(
                (#[trigger] t.containers@[a]).hpos as int,
                t.containers@[a].vpos as int,
                t.containers@[a].spec_dw(),
                t.containers@[a].spec_dh(),
                (#[trigger] t.containers@[b]).hpos as int,
                t.containers@[b].vpos as int,
                t.containers@[b].spec_dw(),
                t.containers@[b].spec_dh(),
            ),
        forall|k: int, a: int, b: int|
            0 <= k < t.containers@.len() && 0 <= a < t.containers@[k].texts@.len() && 0 <= b
                < t.containers@[k].texts@.len() && a != b ==> !texts_conflict(
                #[trigger] t.containers@[k].texts@[a],
                #[trigger] t.containers@[k].texts@[b],
            ),
{
    assert forall|a: int, b: int|
        0 <= a < t.containers@.len() && 0 <= b < t.containers@.len() && a
            != b implies !spec_rects_conflict(
        (#[trigger] t.containers@[a]).hpos as int,
        t.containers@[a].vpos as int,
        t.containers@[a].spec_dw(),
        t.containers@[a].spec_dh(),
        (#[trigger] t.containers@[b]).hpos as int,
        t.containers@[b].vpos as int,
        t.containers@[b].spec_dw(),
        t.containers@[b].spec_dh(),
    ) by {
        assert(t.containers@[a].id != t.containers@[b].id);
        assert(!containers_conflict(t.containers@[a], t.containers@[b]));
    }
    assert forall|k: int, a: int, b: int|
        0 <= k < t.containers@.len() && 0 <= a < t.containers@[k].texts@.len() && 0 <= b
            < t.containers@[k].texts@.len() && a != b implies !texts_conflict(
        #[trigger] t.containers@[k].texts@[a],
        #[trigger] t.containers@[k].texts@[b],
    ) by {
        assert(t.containers@[k].wf());
    }
}

/// Every text field of a well-formed window is editable exactly when the
/// last component of its id is even.
pub proof fn lemma_parity(t: Term)
    requires
        t.wf(),
    ensures
        forall|k: int, j: int|
            0 <= k < t.containers@.len() && 0 <= j < t.containers@[k].texts@.len() ==> ((
            #[trigger] t.containers@[k].texts@[j]).id[2] % 2 == 0 <==> t.containers@[k].texts@[j].editable),
{
    assert forall|k: int, j: int|
        0 <= k < t.containers@.len() && 0 <= j < t.containers@[k].texts@.len() implies ((
    #[trigger] t.containers@[k].texts@[j]).id[2] % 2 == 0 <==> t.containers@[k].texts@[j].editable) by {
        assert(t.containers@[k].wf());
        assert(t.containers@[k].texts@[j].parity_ok());
    }
}

/// The absolute origin cached on every text field of a well-formed window
/// is the one computed from its container's origin, border and padding and
/// its own relative origin alone.
pub proof fn lemma_abs_origin_cached(t: Term)
    requires
        t.wf(),
    ensures
        forall|k: int, j: int|
            0 <= k < t.containers@.len() && 0 <= j < t.containers@[k].texts@.len() ==> {
                let c = t.containers@[k];
                let x = #[trigger] t.containers@[k].texts@[j];
                &&& x.ahpos == spec_text_abs_origin(
                    c.hpos,
                    c.vpos,
                    c.border,
                    c.padding,
                    x.hpos,
                    x.vpos,
                ).0
                &&& x.avpos == spec_text_abs_origin(
                    c.hpos,
                    c.vpos,
                    c.border,
                    c.padding,
                    x.hpos,
                    x.vpos,
                ).1
            },
{
    assert forall|k: int, j: int|
        0 <= k < t.containers@.len() && 0 <= j < t.containers@[k].texts@.len() implies {
        let c = t.containers@[k];
        let x = #[trigger] t.containers@[k].texts@[j];
        &&& x.ahpos == spec_text_abs_origin(c.hpos, c.vpos, c.border, c.padding, x.hpos, x.vpos).0
        &&& x.avpos == spec_text_abs_origin(c.hpos, c.vpos, c.border, c.padding, x.hpos, x.vpos).1
    } by {
        assert(t.containers@[k].wf());
        assert(t.containers@[k].text_placed(t.containers@[k].texts@[j]));
    }
}

/// At most one text field of a well-formed window carries the focus flag.
pub proof fn lemma_single_focus(t: Term)
    requires
        t.wf(),
    ensures
        forall|k1: int, j1: int, k2: int, j2: int|
            0 <= k1 < t.containers@.len() && 0 <= j1 < t.containers@[k1].texts@.len() && 0 <= k2
                < t.containers@.len() && 0 <= j2 < t.containers@[k2].texts@.len()
                && #[trigger] text_focused(t.containers@[k1].texts@[j1]) && #[trigger] text_focused(
                t.containers@[k2].texts@[j2],
            ) ==> k1 == k2 && j1 == j2,
{
    assert forall|k1: int, j1: int, k2: int, j2: int|
        0 <= k1 < t.containers@.len() && 0 <= j1 < t.containers@[k1].texts@.len() && 0 <= k2
            < t.containers@.len() && 0 <= j2 < t.containers@[k2].texts@.len()
            && #[trigger] text_focused(t.containers@[k1].texts@[j1]) && #[trigger] text_focused(
            t.containers@[k2].texts@[j2],
        ) implies k1 == k2 && j1 == j2 by {
        assert(t.focused_at(k1, j1) && t.focused_at(k2, j2));
    }
}

} // verus!
