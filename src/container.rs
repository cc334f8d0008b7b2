use vstd::prelude::*;

use crate::attributes::Attributes;
use crate::border::{border_fit, Border};
use crate::errors::{IdError, SpaceError, TreeError, ValidationError};
use crate::geometry::{
    calc_text_abs_ori, rects_conflict, resolve_wh, spec_anchor, spec_area, spec_extra_h,
    spec_extra_w, spec_rects_conflict, spec_text_abs_origin, Area, Pos,
};
use crate::ids::{all_taken, first_free_id, is_first_free};
use crate::layout::{Layout, LayoutRules};
use crate::padding::Padding;
use crate::property::Properties;
use crate::text::{capacity, spec_buffer, Text};

verus! {

/// A position inside a parent's content area.
#[derive(Debug, Clone, Copy, PartialEq, Eq, Structural)]
pub struct Position {
    pub x: u16,
    pub y: u16,
}

/// Checks a decorated box of `w` x `h` at (`x`, `y`) against a parent
/// interior of `pw` x `ph`: the size first, then the position.
pub fn check_space(pw: u16, ph: u16, w: u32, h: u32, x: u16, y: u16) -> (r: Result<
    (),
    ValidationError,
>)
    ensures
        r == (if w > pw && h > ph {
            Err(ValidationError::WHOverflow)
        } else if w > pw {
            Err(ValidationError::WidthOverflow)
        } else if h > ph {
            Err(ValidationError::HeightOverflow)
        } else if x + w > pw {
            Err(ValidationError::XOutofBounds)
        } else if y + h > ph {
            Err(ValidationError::YOutOfBounds)
        } else {
            Ok(())
        }),
{
    if w > pw as u32 && h > ph as u32 {
        Err(ValidationError::WHOverflow)
    } else if w > pw as u32 {
        Err(ValidationError::WidthOverflow)
    } else if h > ph as u32 {
        Err(ValidationError::HeightOverflow)
    } else if x as u32 + w > pw as u32 {
        Err(ValidationError::XOutofBounds)
    } else if y as u32 + h > ph as u32 {
        Err(ValidationError::YOutOfBounds)
    } else {
        Ok(())
    }
}

/// Whether two text fields' decorated boxes overlap.
pub open spec fn texts_conflict(a: Text, b: Text) -> bool {
    spec_rects_conflict(
        a.hpos as int,
        a.vpos as int,
        a.spec_dw(),
        a.spec_dh(),
        b.hpos as int,
        b.vpos as int,
        b.spec_dw(),
        b.spec_dh(),
    )
}

/// Whether two containers agree on everything but their text fields.
pub open spec fn same_frame(a: Container, b: Container) -> bool {
    &&& a.id == b.id
    &&& a.w == b.w
    &&& a.h == b.h
    &&& a.hpos == b.hpos
    &&& a.vpos == b.vpos
    &&& a.border == b.border
    &&& a.padding == b.padding
    &&& a.layout == b.layout
    &&& a.properties == b.properties
    &&& a.attributes == b.attributes
}

/// A rectangular region inside a window that groups text fields.
#[derive(Debug)]
pub struct Container {
    /// window and container components
    pub id: [u8; 2],
    /// the text fields, in insertion order
    pub texts: Vec<Text>,
    /// content width
    pub w: u16,
    /// content height
    pub h: u16,
    /// origin column in the window
    pub hpos: u16,
    /// origin row in the window
    pub vpos: u16,
    pub border: Border,
    pub padding: Padding,
    pub layout: Layout,
    pub properties: Properties,
    pub attributes: Attributes,
}

impl Container {
    /// Width of the decorated box: content, border and padding.
    pub open spec fn spec_dw(&self) -> int {
        self.w + spec_extra_w(self.border, self.padding)
    }

    /// Height of the decorated box: content, border and padding.
    pub open spec fn spec_dh(&self) -> int {
        self.h + spec_extra_h(self.border, self.padding)
    }

    /// Whether a text field's decorated box lies inside this container's
    /// content area.
    pub open spec fn text_fits(&self, t: Text) -> bool {
        t.hpos + t.spec_dw() <= self.w && t.vpos + t.spec_dh() <= self.h
    }

    /// The absolute origin a text field at (`thpos`, `tvpos`) gets here.
    pub open spec fn spec_abs(&self, thpos: u16, tvpos: u16) -> (int, int) {
        spec_text_abs_origin(self.hpos, self.vpos, self.border, self.padding, thpos, tvpos)
    }

    /// Whether a text field's cached absolute origin is the one this
    /// container gives it.
    pub open spec fn text_placed(&self, t: Text) -> bool {
        t.ahpos == self.spec_abs(t.hpos, t.vpos).0 && t.avpos == self.spec_abs(t.hpos, t.vpos).1
    }

    /// Whether a text field with this id is a child.
    pub open spec fn spec_has_text(&self, id: [u8; 3]) -> bool {
        exists|i: int| 0 <= i < self.texts@.len() && #[trigger] self.texts@[i].id == id
    }

    /// Whether a box conflicts with a child's decorated box.
    pub open spec fn spec_conflicts(&self, x: int, y: int, w: int, h: int) -> bool {
        exists|i: int|
            0 <= i < self.texts@.len() && #[trigger] spec_rects_conflict(
                x,
                y,
                w,
                h,
                self.texts@[i].hpos as int,
                self.texts@[i].vpos as int,
                self.texts@[i].spec_dw(),
                self.texts@[i].spec_dh(),
            )
    }

    /// Well-formedness: every child belongs here, has an id of the right
    /// parity, fits the content area, has its absolute origin cached, and no
    /// two children share an id or a cell.
    pub open spec fn wf(&self) -> bool {
        &&& forall|i: int|
            0 <= i < self.texts@.len() ==> {
                let t = #[trigger] self.texts@[i];
                &&& t.id[0] == self.id[0]
                &&& t.id[1] == self.id[1]
                &&& t.parity_ok()
                &&& self.text_fits(t)
                &&& self.text_placed(t)
            }
        &&& forall|i: int, j: int|
            0 <= i < self.texts@.len() && 0 <= j < self.texts@.len() && i != j ==> {
                &&& #[trigger] self.texts@[i].id != #[trigger] self.texts@[j].id
                &&& !texts_conflict(self.texts@[i], self.texts@[j])
            }
    }

    /// Why a new text field with these resolved values would be refused, in
    /// the order the checks run; `None` when it is accepted.
    pub open spec fn spec_place_error(
        &self,
        id: [u8; 3],
        editable: bool,
        border: Border,
        padding: Padding,
        w: int,
        h: int,
        hpos: int,
        vpos: int,
        value_len: int,
    ) -> Option<TreeError> {
        let dw = w + spec_extra_w(border, padding);
        let dh = h + spec_extra_h(border, padding);
        if id[0] != self.id[0] || id[1] != self.id[1] {
            Some(TreeError::ParentNotFound)
        } else if (id[2] % 2 == 0) != editable {
            Some(TreeError::IdError(IdError::KindMismatch))
        } else if self.spec_has_text(id) {
            Some(TreeError::IdError(IdError::IdAlreadyTaken))
        } else if !border.spec_fits(padding) {
            Some(TreeError::BoundsNotRespected)
        } else if value_len > w * h {
            Some(TreeError::BadValue)
        } else if dw > self.w || dh > self.h {
            Some(TreeError::SpaceError(SpaceError::AreaOutOfBounds))
        } else if hpos + dw > self.w || vpos + dh > self.h {
            Some(TreeError::SpaceError(SpaceError::OriginOutOfBounds))
        } else if self.spec_conflicts(hpos, vpos, dw, dh) {
            Some(TreeError::BoundsNotRespected)
        } else if self.spec_abs(hpos as u16, vpos as u16).0 > u16::MAX || self.spec_abs(
            hpos as u16,
            vpos as u16,
        ).1 > u16::MAX {
            Some(TreeError::BoundsNotRespected)
        } else {
            None
        }
    }

    /// Creates an empty container.
    pub fn new(
        id: [u8; 2],
        hpos: u16,
        vpos: u16,
        w: u16,
        h: u16,
        border: Border,
        padding: Padding,
    ) -> (r: Container)
        ensures
            r.id == id,
            r.hpos == hpos,
            r.vpos == vpos,
            r.w == w,
            r.h == h,
            r.border == border,
            r.padding == padding,
            r.layout == Layout::Canvas,
            r.texts@.len() == 0,
            r.attributes@ == Set::<Seq<char>>::empty(),
            r.wf(),
    {
        Container {
            id,
            texts: Vec::new(),
            w,
            h,
            hpos,
            vpos,
            border,
            padding,
            layout: Layout::Canvas,
            properties: Properties::new(),
            attributes: Attributes::new(),
        }
    }

    /// Whether this container carries the focus.
    pub fn is_focused(&self) -> (r: bool)
        ensures
            r == self.attributes@.contains("focused"@),
    {
        self.attributes.contains("focused")
    }

    /// Whether this container carries the attribute `attr`.
    pub fn has_attribute(&self, attr: &str) -> (r: bool)
        ensures
            r == self.attributes@.contains(attr@),
    {
        self.attributes.contains(attr)
    }

    /// The id of the parent window.
    pub fn parent(&self) -> (r: u8)
        ensures
            r == self.id[0],
    {
        self.id[0]
    }

    /// The number of text fields.
    pub fn len(&self) -> (r: usize)
        ensures
            r == self.texts@.len(),
    {
        self.texts.len()
    }

    /// The position of the text field with this id among the children.
    pub fn text_index(&self, id: &[u8; 3]) -> (r: Option<usize>)
        ensures
            match r {
                Some(i) => i < self.texts@.len() && self.texts@[i as int].id == *id,
                None => !self.spec_has_text(*id),
            },
    {
        let mut i: usize = 0;
        while i < self.texts.len()
            invariant
                0 <= i <= self.texts@.len(),
                forall|j: int| 0 <= j < i ==> #[trigger] self.texts@[j].id != *id,
            decreases self.texts@.len() - i,
        {
            if self.texts[i].id[0] == id[0] && self.texts[i].id[1] == id[1] && self.texts[i].id[2]
                == id[2] {
                assert(self.texts@[i as int].id =~= *id);
                return Some(i);
            }
            i += 1;
        }
        None
    }

    /// Whether a text field with this id is a child.
    pub fn id_in_use(&self, id: &[u8; 3]) -> (r: bool)
        ensures
            r == self.spec_has_text(*id),
    {
        self.text_index(id).is_some()
    }

    /// The child text field whose last id component is `id`.
    pub fn child_ref(&self, id: u8) -> (r: Option<&Text>)
        ensures
            match r {
                Some(t) => self.spec_has_text([self.id[0], self.id[1], id]) && t.id == [
                    self.id[0],
                    self.id[1],
                    id,
                ] && self.texts@.contains(*t),
                None => !self.spec_has_text([self.id[0], self.id[1], id]),
            },
    {
        match self.text_index(&[self.id[0], self.id[1], id]) {
            Some(i) => Some(&self.texts[i]),
            None => None,
        }
    }

    /// Takes the child text field whose last id component is `id` out.
    pub fn remove(&mut self, id: u8) -> (r: Option<Text>)
        ensures
            match r {
                Some(t) => exists|i: int|
                    0 <= i < old(self).texts@.len() && old(self).texts@[i] == t && t.id == [
                        old(self).id[0],
                        old(self).id[1],
                        id,
                    ] && final(self).texts@ == old(self).texts@.remove(i),
                None => !old(self).spec_has_text([old(self).id[0], old(self).id[1], id])
                    && final(self).texts@ == old(self).texts@,
            },
            final(self).id == old(self).id,
            final(self).w == old(self).w,
            final(self).h == old(self).h,
            final(self).hpos == old(self).hpos,
            final(self).vpos == old(self).vpos,
            final(self).border == old(self).border,
            final(self).padding == old(self).padding,
            old(self).wf() ==> final(self).wf(),
    {
        match self.text_index(&[self.id[0], self.id[1], id]) {
            Some(i) => {
                let t = self.texts.remove(i);
                proof {
                    let o = old(self).texts@;
                    assert forall|a: int| 0 <= a < self.texts@.len() implies #[trigger] self.texts@[a]
                        == o[if a < i {
                        a
                    } else {
                        a + 1
                    }] by {}
                }
                Some(t)
            },
            None => None,
        }
    }

    /// The first free text id of the parity of `bad`: even ids for editable
    /// fields, odd ones for read-only fields.
    pub fn generate_id(&self, bad: u8) -> (r: Option<u8>)
        ensures
            match r {
                Some(x) => is_first_free(
                    self.texts@.map_values(|t: Text| t.id[2]),
                    (bad % 2) as int,
                    2,
                    x as int,
                ),
                None => all_taken(self.texts@.map_values(|t: Text| t.id[2]), (bad % 2) as int, 2),
            },
    {
        let mut used: Vec<u8> = Vec::new();
        let mut i: usize = 0;
        while i < self.texts.len()
            invariant
                0 <= i <= self.texts@.len(),
                used@ == self.texts@.take(i as int).map_values(|t: Text| t.id[2]),
            decreases self.texts@.len() - i,
        {
            used.push(self.texts[i].id[2]);
            i += 1;
            assert(used@ =~= self.texts@.take(i as int).map_values(|t: Text| t.id[2]));
        }
        assert(self.texts@.take(i as int) =~= self.texts@);
        first_free_id(&used, bad % 2, 2)
    }

    /// Whether a decorated size of `wh` exceeds this container's content
    /// area on either dimension.
    pub fn area_out_of_bounds(&self, wh: &[u32; 2]) -> (r: bool)
        ensures
            r == (wh[0] > self.w || wh[1] > self.h),
    {
        wh[0] > self.w as u32 || wh[1] > self.h as u32
    }

    /// Whether a decorated box of `wh` at `xy` crosses this container's
    /// content area.
    pub fn origin_out_of_bounds(&self, xy: &[u16; 2], wh: &[u32; 2]) -> (r: bool)
        ensures
            r == (xy[0] + wh[0] > self.w || xy[1] + wh[1] > self.h),
    {
        xy[0] as u64 + wh[0] as u64 > self.w as u64 || xy[1] as u64 + wh[1] as u64 > self.h as u64
    }

    /// Checks a decorated size at a position against the content area.
    pub fn layout_is_valid(&self, size: &[u32; 2], pos: &Position) -> (r: Result<
        (),
        ValidationError,
    >)
        ensures
            r == (if size[0] > self.w && size[1] > self.h {
                Err(ValidationError::WHOverflow)
            } else if size[0] > self.w {
                Err(ValidationError::WidthOverflow)
            } else if size[1] > self.h {
                Err(ValidationError::HeightOverflow)
            } else if pos.x + size[0] > self.w {
                Err(ValidationError::XOutofBounds)
            } else if pos.y + size[1] > self.h {
                Err(ValidationError::YOutOfBounds)
            } else {
                Ok(())
            }),
    {
        check_space(self.w, self.h, size[0], size[1], pos.x, pos.y)
    }

    /// Whether a box conflicts with a child's decorated box.
    pub fn conflicts(&self, x: u16, y: u16, w: u32, h: u32) -> (r: bool)
        ensures
            r == self.spec_conflicts(x as int, y as int, w as int, h as int),
    {
        let mut i: usize = 0;
        while i < self.texts.len()
            invariant
                0 <= i <= self.texts@.len(),
                forall|j: int|
                    0 <= j < i ==> !#[trigger] spec_rects_conflict(
                        x as int,
                        y as int,
                        w as int,
                        h as int,
                        self.texts@[j].hpos as int,
                        self.texts@[j].vpos as int,
                        self.texts@[j].spec_dw(),
                        self.texts@[j].spec_dh(),
                    ),
            decreases self.texts@.len() - i,
        {
            let t = &self.texts[i];
            let extra = resolve_wh(&t.border, &t.padding);
            if rects_conflict(
                x as u32,
                y as u32,
                w,
                h,
                t.hpos as u32,
                t.vpos as u32,
                t.w as u32 + extra[0],
                t.h as u32 + extra[1],
            ) {
                assert(spec_rects_conflict(
                    x as int,
                    y as int,
                    w as int,
                    h as int,
                    self.texts@[i as int].hpos as int,
                    self.texts@[i as int].vpos as int,
                    self.texts@[i as int].spec_dw(),
                    self.texts@[i as int].spec_dh(),
                ));
                return true;
            }
            i += 1;
        }
        false
    }

    /// Checks an existing text field's geometry against this container: its
    /// decorated size, its position, then its siblings.
    pub fn assign_valid_text_area(&self, text: &Text) -> (r: Result<(), TreeError>)
        ensures
            r is Ok <==> (self.text_fits(*text) && !self.spec_conflicts(
                text.hpos as int,
                text.vpos as int,
                text.spec_dw(),
                text.spec_dh(),
            )),
            r matches Err(e) ==> e == (if text.spec_dw() > self.w || text.spec_dh() > self.h {
                TreeError::SpaceError(SpaceError::AreaOutOfBounds)
            } else if !self.text_fits(*text) {
                TreeError::SpaceError(SpaceError::OriginOutOfBounds)
            } else {
                TreeError::BoundsNotRespected
            }),
    {
        let extra = resolve_wh(&text.border, &text.padding);
        let wh = [text.w as u32 + extra[0], text.h as u32 + extra[1]];
        if self.area_out_of_bounds(&wh) {
            return Err(TreeError::SpaceError(SpaceError::AreaOutOfBounds));
        }
        if self.origin_out_of_bounds(&[text.hpos, text.vpos], &wh) {
            return Err(TreeError::SpaceError(SpaceError::OriginOutOfBounds));
        }
        if self.conflicts(text.hpos, text.vpos, wh[0], wh[1]) {
            return Err(TreeError::BoundsNotRespected);
        }
        Ok(())
    }

    /// Checks an existing text field's decorated size and position against
    /// this container's content area, and hands it back when they fit.
    pub fn input_space_validation(&self, text: Text) -> (r: Result<Text, SpaceError>)
        ensures
            match r {
                Ok(t) => t == text && self.text_fits(text),
                Err(e) => e == (if text.spec_dw() > self.w || text.spec_dh() > self.h {
                    SpaceError::AreaOutOfBounds
                } else {
                    SpaceError::OriginOutOfBounds
                }) && !self.text_fits(text),
            },
    {
        let extra = resolve_wh(&text.border, &text.padding);
        let wh = [text.w as u32 + extra[0], text.h as u32 + extra[1]];
        if self.area_out_of_bounds(&wh) {
            return Err(SpaceError::AreaOutOfBounds);
        }
        if self.origin_out_of_bounds(&[text.hpos, text.vpos], &wh) {
            return Err(SpaceError::OriginOutOfBounds);
        }
        Ok(text)
    }
}

impl Container {
    /// Whether `t` is the text field that `place_text` creates from these
    /// resolved values.
    pub open spec fn is_placed_text(
        &self,
        t: Text,
        id: [u8; 3],
        border: Border,
        padding: Padding,
        w: int,
        h: int,
        hpos: int,
        vpos: int,
        value: Seq<Option<char>>,
    ) -> bool {
        &&& t.id == id
        &&& t.w == w
        &&& t.h == h
        &&& t.hpos == hpos
        &&& t.vpos == vpos
        &&& t.ahpos == self.spec_abs(hpos as u16, vpos as u16).0
        &&& t.avpos == self.spec_abs(hpos as u16, vpos as u16).1
        &&& t.border == border
        &&& t.padding == padding
        &&& t.value@ == spec_buffer(value, w * h)
        &&& t.editable == (id[2] % 2 == 0)
        &&& t.crsh == 0
        &&& t.crsv == 0
        &&& t.attributes@ == Set::<Seq<char>>::empty()
    }

    /// What `place_text` does: with the content size and anchors resolved
    /// in the old container, the outcome is `Ok` exactly when no check
    /// refuses; an error leaves the container as it was; success appends the
    /// new field and changes nothing else; well-formedness is kept.
    pub open spec fn place_outcome(
        old_c: Container,
        new_c: Container,
        id: [u8; 3],
        xpos: Pos,
        ypos: Pos,
        area: Area,
        border: Border,
        padding: Padding,
        value: Seq<Option<char>>,
        editable: bool,
        r: Result<(), TreeError>,
    ) -> bool {
        let (w, h) = spec_area(area, old_c.w, old_c.h);
        let dw = w + spec_extra_w(border, padding);
        let dh = h + spec_extra_h(border, padding);
        let hpos = spec_anchor(xpos, old_c.w as int, dw);
        let vpos = spec_anchor(ypos, old_c.h as int, dh);
        let err = old_c.spec_place_error(
            id,
            editable,
            border,
            padding,
            w as int,
            h as int,
            hpos,
            vpos,
            value.len() as int,
        );
        &&& r is Ok <==> err is None
        &&& r matches Err(e) ==> err == Some(e) && new_c == old_c
        &&& r is Ok ==> same_frame(old_c, new_c) && new_c.texts@.len() == old_c.texts@.len() + 1
            && new_c.texts@.drop_last() == old_c.texts@ && old_c.is_placed_text(
            new_c.texts@.last(),
            id,
            border,
            padding,
            w as int,
            h as int,
            hpos,
            vpos,
            value,
        )
        &&& old_c.wf() ==> new_c.wf()
    }

    /// What `push_text` does: the field is checked exactly as a new one;
    /// an error hands it back and leaves the container as it was; success
    /// appends it with its absolute origin recomputed and changes nothing
    /// else; well-formedness is kept.
    pub open spec fn push_outcome(
        old_c: Container,
        new_c: Container,
        t: Text,
        r: Result<(), (Text, TreeError)>,
    ) -> bool {
        let err = old_c.spec_place_error(
            t.id,
            t.editable,
            t.border,
            t.padding,
            t.w as int,
            t.h as int,
            t.hpos as int,
            t.vpos as int,
            t.value@.len() as int,
        );
        &&& r is Ok <==> err is None
        &&& r matches Err(p) ==> err == Some(p.1) && p.0 == t && new_c == old_c
        &&& r is Ok ==> same_frame(old_c, new_c) && new_c.texts@.len() == old_c.texts@.len() + 1
            && new_c.texts@.drop_last() == old_c.texts@ && text_same_but_attrs(
            (Text {
                ahpos: old_c.spec_abs(t.hpos, t.vpos).0 as u16,
                avpos: old_c.spec_abs(t.hpos, t.vpos).1 as u16,
                ..t
            }),
            new_c.texts@.last(),
        ) && new_c.texts@.last().attributes@ == t.attributes@.remove("focused"@)
        &&& old_c.wf() ==> new_c.wf()
    }

    /// Appending a text field that passed every check keeps the container
    /// well formed.
    pub proof fn lemma_push_keeps_wf(old_c: Container, new_c: Container, t: Text)
        requires
            old_c.wf(),
            same_frame(old_c, new_c),
            new_c.texts@ == old_c.texts@.push(t),
            t.id[0] == old_c.id[0],
            t.id[1] == old_c.id[1],
            t.parity_ok(),
            old_c.text_fits(t),
            old_c.text_placed(t),
            !old_c.spec_has_text(t.id),
            !old_c.spec_conflicts(t.hpos as int, t.vpos as int, t.spec_dw(), t.spec_dh()),
        ensures
            new_c.wf(),
    {
        let n = old_c.texts@.len() as int;
        assert forall|i: int| 0 <= i < new_c.texts@.len() implies {
            let u = #[trigger] new_c.texts@[i];
            &&& u.id[0] == new_c.id[0]
            &&& u.id[1] == new_c.id[1]
            &&& u.parity_ok()
            &&& new_c.text_fits(u)
            &&& new_c.text_placed(u)
        } by {
            if i < n {
                assert(new_c.texts@[i] == old_c.texts@[i]);
            }
        }
        assert forall|i: int, j: int|
            0 <= i < new_c.texts@.len() && 0 <= j < new_c.texts@.len() && i != j implies {
            &&& #[trigger] new_c.texts@[i].id != #[trigger] new_c.texts@[j].id
            &&& !texts_conflict(new_c.texts@[i], new_c.texts@[j])
        } by {
            if i < n && j < n {
                assert(new_c.texts@[i] == old_c.texts@[i]);
                assert(new_c.texts@[j] == old_c.texts@[j]);
            } else if i < n {
                assert(new_c.texts@[i] == old_c.texts@[i]);
                assert(new_c.texts@[j] == t);
                if old_c.texts@[i].id == t.id {
                    assert(old_c.spec_has_text(t.id));
                }
                if texts_conflict(old_c.texts@[i], t) {
                    assert(spec_rects_conflict(
                        t.hpos as int,
                        t.vpos as int,
                        t.spec_dw(),
                        t.spec_dh(),
                        old_c.texts@[i].hpos as int,
                        old_c.texts@[i].vpos as int,
                        old_c.texts@[i].spec_dw(),
                        old_c.texts@[i].spec_dh(),
                    ));
                }
            } else {
                assert(new_c.texts@[j] == old_c.texts@[j]);
                assert(new_c.texts@[i] == t);
                if old_c.texts@[j].id == t.id {
                    assert(old_c.spec_has_text(t.id));
                }
                if texts_conflict(t, old_c.texts@[j]) {
                    assert(spec_rects_conflict(
                        t.hpos as int,
                        t.vpos as int,
                        t.spec_dw(),
                        t.spec_dh(),
                        old_c.texts@[j].hpos as int,
                        old_c.texts@[j].vpos as int,
                        old_c.texts@[j].spec_dw(),
                        old_c.texts@[j].spec_dh(),
                    ));
                }
            }
        }
    }

    /// Whether `t` passed every check to join this container as it is.
    pub open spec fn accepts(&self, t: Text) -> bool {
        &&& t.id[0] == self.id[0]
        &&& t.id[1] == self.id[1]
        &&& t.parity_ok()
        &&& self.text_fits(t)
        &&& self.text_placed(t)
        &&& !self.spec_has_text(t.id)
        &&& !self.spec_conflicts(t.hpos as int, t.vpos as int, t.spec_dw(), t.spec_dh())
        &&& !text_focused(t)
    }

    /// Resolves and checks a new text field without changing the container
    /// (see `place_text`), and returns it when every check passes.
    pub fn prepare_text(
        &self,
        id: [u8; 3],
        xpos: Pos,
        ypos: Pos,
        area: Area,
        border: Border,
        padding: Padding,
        value: &[Option<char>],
        editable: bool,
    ) -> (r: Result<Text, TreeError>)
        ensures
            ({
                let (w, h) = spec_area(area, self.w, self.h);
                let dw = w + spec_extra_w(border, padding);
                let dh = h + spec_extra_h(border, padding);
                let hpos = spec_anchor(xpos, self.w as int, dw);
                let vpos = spec_anchor(ypos, self.h as int, dh);
                let err = self.spec_place_error(
                    id,
                    editable,
                    border,
                    padding,
                    w as int,
                    h as int,
                    hpos,
                    vpos,
                    value@.len() as int,
                );
                match r {
                    Ok(t) => err is None && self.accepts(t) && self.is_placed_text(
                        t,
                        id,
                        border,
                        padding,
                        w as int,
                        h as int,
                        hpos,
                        vpos,
                        value@,
                    ),
                    Err(e) => err == Some(e),
                }
            }),
    {
        if id[0] != self.id[0] || id[1] != self.id[1] {
            return Err(TreeError::ParentNotFound);
        }
        if (id[2] % 2 == 0) != editable {
            return Err(TreeError::IdError(IdError::KindMismatch));
        }
        if self.id_in_use(&id) {
            return Err(TreeError::IdError(IdError::IdAlreadyTaken));
        }
        if !border_fit(&border, &padding) {
            return Err(TreeError::BoundsNotRespected);
        }
        let wh = area.unwrap(self.w, self.h);
        let extra = resolve_wh(&border, &padding);
        let dw = wh[0] as u32 + extra[0];
        let dh = wh[1] as u32 + extra[1];
        if value.len() as u64 > capacity(wh[0], wh[1]) as u64 {
            return Err(TreeError::BadValue);
        }
        if self.area_out_of_bounds(&[dw, dh]) {
            return Err(TreeError::SpaceError(SpaceError::AreaOutOfBounds));
        }
        let hpos = match xpos.point(self.w, dw) {
            Some(p) => p,
            None => return Err(TreeError::SpaceError(SpaceError::AreaOutOfBounds)),
        };
        let vpos = match ypos.point(self.h, dh) {
            Some(p) => p,
            None => return Err(TreeError::SpaceError(SpaceError::AreaOutOfBounds)),
        };
        if self.origin_out_of_bounds(&[hpos, vpos], &[dw, dh]) {
            return Err(TreeError::SpaceError(SpaceError::OriginOutOfBounds));
        }
        if self.conflicts(hpos, vpos, dw, dh) {
            return Err(TreeError::BoundsNotRespected);
        }
        let abs = calc_text_abs_ori(self.hpos, self.vpos, &self.border, &self.padding, hpos, vpos);
        if abs[0] > 65535 || abs[1] > 65535 {
            return Err(TreeError::BoundsNotRespected);
        }
        Ok(
            Text::new(
                id,
                hpos,
                vpos,
                abs[0] as u16,
                abs[1] as u16,
                wh[0],
                wh[1],
                value,
                border,
                padding,
            ),
        )
    }

    /// Checks an already-built text field without changing the container
    /// (see `push_text`), and returns it with its absolute origin set when
    /// every check passes; otherwise hands it back with the error.
    pub fn validate_text(&self, t: Text) -> (r: Result<Text, (Text, TreeError)>)
        ensures
            ({
                let err = self.spec_place_error(
                    t.id,
                    t.editable,
                    t.border,
                    t.padding,
                    t.w as int,
                    t.h as int,
                    t.hpos as int,
                    t.vpos as int,
                    t.value@.len() as int,
                );
                match r {
                    Ok(u) => err is None && self.accepts(u) && text_same_but_attrs(
                        (Text {
                            ahpos: self.spec_abs(t.hpos, t.vpos).0 as u16,
                            avpos: self.spec_abs(t.hpos, t.vpos).1 as u16,
                            ..t
                        }),
                        u,
                    ) && u.attributes@ == t.attributes@.remove("focused"@),
                    Err(p) => err == Some(p.1) && p.0 == t,
                }
            }),
    {
        if t.id[0] != self.id[0] || t.id[1] != self.id[1] {
            return Err((t, TreeError::ParentNotFound));
        }
        if (t.id[2] % 2 == 0) != t.editable {
            return Err((t, TreeError::IdError(IdError::KindMismatch)));
        }
        if self.id_in_use(&t.id) {
            return Err((t, TreeError::IdError(IdError::IdAlreadyTaken)));
        }
        if !border_fit(&t.border, &t.padding) {
            return Err((t, TreeError::BoundsNotRespected));
        }
        if t.value.len() as u64 > capacity(t.w, t.h) as u64 {
            return Err((t, TreeError::BadValue));
        }
        match self.assign_valid_text_area(&t) {
            Err(e) => {
                return Err((t, e));
            },
            Ok(()) => {},
        }
        let abs = calc_text_abs_ori(self.hpos, self.vpos, &self.border, &self.padding, t.hpos, t.vpos);
        if abs[0] > 65535 || abs[1] > 65535 {
            return Err((t, TreeError::BoundsNotRespected));
        }
        let mut t = t;
        t.ahpos = abs[0] as u16;
        t.avpos = abs[1] as u16;
        t.attributes.remove("focused");
        Ok(t)
    }

    /// Appends a text field that passed every check.
    pub fn append_text(&mut self, t: Text)
        requires
            old(self).accepts(t),
        ensures
            same_frame(*old(self), *final(self)),
            final(self).texts@ == old(self).texts@.push(t),
            old(self).wf() ==> final(self).wf(),
    {
        let ghost old_c = *self;
        self.texts.push(t);
        proof {
            if old_c.wf() {
                Container::lemma_push_keeps_wf(old_c, *self, t);
            }
        }
    }

    /// Creates a text field from its id, anchors, content area, border,
    /// padding and initial value, validates it against this container and
    /// its children, and appends it. On any error the container is left as
    /// it was.
    pub fn place_text(
        &mut self,
        id: [u8; 3],
        xpos: Pos,
        ypos: Pos,
        area: Area,
        border: Border,
        padding: Padding,
        value: &[Option<char>],
        editable: bool,
    ) -> (r: Result<(), TreeError>)
        ensures
            Container::place_outcome(
                *old(self),
                *final(self),
                id,
                xpos,
                ypos,
                area,
                border,
                padding,
                value@,
                editable,
                r,
            ),
    {
        match self.prepare_text(id, xpos, ypos, area, border, padding, value, editable) {
            Ok(t) => {
                self.append_text(t);
                assert(self.texts@.drop_last() =~= old(self).texts@);
                Ok(())
            },
            Err(e) => Err(e),
        }
    }

    /// Validates an already-built text field against this container and its
    /// children exactly as a new one, recomputes its absolute origin, clears
    /// any focus flag it carries (focus is given by `focus` alone), and
    /// appends it. On any error the field is handed back with the error and
    /// the container is left as it was.
    pub fn push_text(&mut self, t: Text) -> (r: Result<(), (Text, TreeError)>)
        ensures
            Container::push_outcome(*old(self), *final(self), t, r),
    {
        match self.validate_text(t) {
            Ok(u) => {
                self.append_text(u);
                assert(self.texts@.drop_last() =~= old(self).texts@);
                Ok(())
            },
            Err(p) => Err(p),
        }
    }
}

impl Container {
    /// Whether one text field satisfies the per-child part of `wf`.
    pub open spec fn child_ok(&self, t: Text) -> bool {
        &&& t.id[0] == self.id[0]
        &&& t.id[1] == self.id[1]
        &&& t.parity_ok()
        &&& self.text_fits(t)
        &&& self.text_placed(t)
    }

    /// Checks the per-child part of `wf` for one text field.
    fn check_child(&self, t: &Text) -> (r: bool)
        ensures
            r == self.child_ok(*t),
    {
        if t.id[0] != self.id[0] || t.id[1] != self.id[1] || (t.id[2] % 2 == 0) != t.editable {
            return false;
        }
        let extra = resolve_wh(&t.border, &t.padding);
        if self.origin_out_of_bounds(&[t.hpos, t.vpos], &[t.w as u32 + extra[0], t.h as u32 + extra[1]]) {
            return false;
        }
        let abs = calc_text_abs_ori(self.hpos, self.vpos, &self.border, &self.padding, t.hpos, t.vpos);
        abs[0] == t.ahpos as u32 && abs[1] == t.avpos as u32
    }

    /// Checks at run time that the container is well formed (`wf`).
    pub fn is_well_formed(&self) -> (r: bool)
        ensures
            r == self.wf(),
    {
        let mut i: usize = 0;
        while i < self.texts.len()
            invariant
                0 <= i <= self.texts@.len(),
                forall|k: int| 0 <= k < i ==> self.child_ok(#[trigger] self.texts@[k]),
                forall|a: int, b: int|
                    0 <= a < i && 0 <= b < i && a != b ==> {
                        &&& #[trigger] self.texts@[a].id != #[trigger] self.texts@[b].id
                        &&& !texts_conflict(self.texts@[a], self.texts@[b])
                    },
            decreases self.texts@.len() - i,
        {
            let t = &self.texts[i];
            if !self.check_child(t) {
                assert(!self.child_ok(self.texts@[i as int]));
                return false;
            }
            let ea = resolve_wh(&t.border, &t.padding);
            let mut j: usize = 0;
            while j < i
                invariant
                    0 <= j <= i < self.texts@.len(),
                    *t == self.texts@[i as int],
                    ea[0] == spec_extra_w(t.border, t.padding),
                    ea[1] == spec_extra_h(t.border, t.padding),
                    forall|b: int|
                        0 <= b < j ==> {
                            &&& self.texts@[i as int].id != #[trigger] self.texts@[b].id
                            &&& !texts_conflict(self.texts@[i as int], self.texts@[b])
                        },
                decreases i - j,
            {
                let u = &self.texts[j];
                if u.id[0] == t.id[0] && u.id[1] == t.id[1] && u.id[2] == t.id[2] {
                    assert(self.texts@[j as int].id =~= self.texts@[i as int].id);
                    return false;
                }
                let eb = resolve_wh(&u.border, &u.padding);
                if rects_conflict(
                    t.hpos as u32,
                    t.vpos as u32,
                    t.w as u32 + ea[0],
                    t.h as u32 + ea[1],
                    u.hpos as u32,
                    u.vpos as u32,
                    u.w as u32 + eb[0],
                    u.h as u32 + eb[1],
                ) {
                    assert(texts_conflict(self.texts@[i as int], self.texts@[j as int]));
                    return false;
                }
                assert(self.texts@[i as int].id != self.texts@[j as int].id) by {
                    if self.texts@[i as int].id == self.texts@[j as int].id {
                        assert(u.id[0] == t.id[0] && u.id[1] == t.id[1] && u.id[2] == t.id[2]);
                    }
                }
                assert(!texts_conflict(self.texts@[i as int], self.texts@[j as int]));
                assert forall|b: int| 0 <= b < j + 1 implies {
                    &&& self.texts@[i as int].id != #[trigger] self.texts@[b].id
                    &&& !texts_conflict(self.texts@[i as int], self.texts@[b])
                } by {
                    if b == j {
                        assert(self.texts@[b] == self.texts@[j as int]);
                    }
                }
                j += 1;
            }
            i += 1;
        }
        true
    }
}

/// Whether two text fields agree on everything but their attributes.
pub open spec fn text_same_but_attrs(a: Text, b: Text) -> bool {
    &&& a.layer == b.layer
    &&& a.id == b.id
    &&& a.temp == b.temp
    &&& a.value == b.value
    &&& a.hicu == b.hicu
    &&& a.w == b.w
    &&& a.h == b.h
    &&& a.crsh == b.crsh
    &&& a.crsv == b.crsv
    &&& a.hpos == b.hpos
    &&& a.vpos == b.vpos
    &&& a.ahpos == b.ahpos
    &&& a.avpos == b.avpos
    &&& a.border == b.border
    &&& a.padding == b.padding
    &&& a.properties == b.properties
    &&& a.editable == b.editable
}

/// Whether two containers agree on everything but the attributes of
/// themselves and of their text fields.
pub open spec fn container_same_but_attrs(a: Container, b: Container) -> bool {
    &&& a.id == b.id
    &&& a.w == b.w
    &&& a.h == b.h
    &&& a.hpos == b.hpos
    &&& a.vpos == b.vpos
    &&& a.border == b.border
    &&& a.padding == b.padding
    &&& a.layout == b.layout
    &&& a.properties == b.properties
    &&& a.texts@.len() == b.texts@.len()
    &&& forall|i: int|
        0 <= i < a.texts@.len() ==> text_same_but_attrs(#[trigger] a.texts@[i], b.texts@[i])
}

/// Whether a text field carries the focus flag.
pub open spec fn text_focused(t: Text) -> bool {
    t.attributes@.contains("focused"@)
}

/// Whether a container carries the focus flag.
pub open spec fn container_focused(c: Container) -> bool {
    c.attributes@.contains("focused"@)
}

/// `j` is the first of `ts` that carries the focus flag.
pub open spec fn first_focused_text(ts: Seq<Text>, j: int) -> bool {
    &&& 0 <= j < ts.len()
    &&& text_focused(ts[j])
    &&& forall|m: int| 0 <= m < j ==> !text_focused(#[trigger] ts[m])
}

/// `k` is the first of `cs` that carries the focus flag.
pub open spec fn first_focused_container(cs: Seq<Container>, k: int) -> bool {
    &&& 0 <= k < cs.len()
    &&& container_focused(cs[k])
    &&& forall|m: int| 0 <= m < k ==> !container_focused(#[trigger] cs[m])
}

/// The attribute set `attrs` after the focus flag was set (`on`) or cleared.
pub open spec fn with_focus(attrs: Set<Seq<char>>, on: bool) -> Set<Seq<char>> {
    if on {
        attrs.insert("focused"@)
    } else {
        attrs.remove("focused"@)
    }
}

impl Container {
    /// The first text field carrying the focus.
    pub fn focused_text(&self) -> (r: Option<usize>)
        ensures
            match r {
                Some(j) => first_focused_text(self.texts@, j as int),
                None => forall|j: int|
                    0 <= j < self.texts@.len() ==> !text_focused(#[trigger] self.texts@[j]),
            },
    {
        let mut j: usize = 0;
        while j < self.texts.len()
            invariant
                0 <= j <= self.texts@.len(),
                forall|k: int| 0 <= k < j ==> !text_focused(#[trigger] self.texts@[k]),
            decreases self.texts@.len() - j,
        {
            if self.texts[j].is_focused() {
                return Some(j);
            }
            j += 1;
        }
        None
    }

    /// Clears the focus flag on this container and its text fields, then,
    /// when `target` names a child, sets it on that child and on this
    /// container.
    pub fn set_focus(&mut self, target: Option<usize>)
        requires
            target matches Some(j) ==> j < old(self).texts@.len(),
        ensures
            container_same_but_attrs(*old(self), *final(self)),
            final(self).attributes@ == with_focus(old(self).attributes@, target is Some),
            forall|j: int|
                0 <= j < final(self).texts@.len() ==> (#[trigger] final(self).texts@[j]).attributes@
                    == with_focus(
                    old(self).texts@[j].attributes@,
                    target matches Some(t) && t as int == j,
                ),
            old(self).wf() ==> final(self).wf(),
    {
        let n = self.texts.len();
        let mut j: usize = 0;
        while j < n
            invariant
                0 <= j <= n,
                n == old(self).texts@.len(),
                self.texts@.len() == n,
                self.id == old(self).id,
                self.w == old(self).w,
                self.h == old(self).h,
                self.hpos == old(self).hpos,
                self.vpos == old(self).vpos,
                self.border == old(self).border,
                self.padding == old(self).padding,
                self.layout == old(self).layout,
                self.properties == old(self).properties,
                self.attributes == old(self).attributes,
                target matches Some(t) ==> t < n,
                forall|k: int|
                    0 <= k < n ==> text_same_but_attrs(old(self).texts@[k], #[trigger] self.texts@[k]),
                forall|k: int|
                    0 <= k < j ==> (#[trigger] self.texts@[k]).attributes@ == with_focus(
                        old(self).texts@[k].attributes@,
                        target matches Some(t) && t as int == k,
                    ),
                forall|k: int| j <= k < n ==> #[trigger] self.texts@[k] == old(self).texts@[k],
            decreases n - j,
        {
            self.texts[j].attributes.remove("focused");
            if target == Some(j) {
                self.texts[j].attributes.insert("focused");
                assert(self.texts@[j as int].attributes@ =~= old(self).texts@[j as int].attributes@.insert(
                    "focused"@,
                ));
            }
            j += 1;
        }
        self.attributes.remove("focused");
        if target.is_some() {
            self.attributes.insert("focused");
            assert(self.attributes@ =~= old(self).attributes@.insert("focused"@));
        }
        proof {
            if old(self).wf() {
                assert forall|i: int| 0 <= i < self.texts@.len() implies self.child_ok(
                    #[trigger] self.texts@[i],
                ) by {
                    assert(old(self).child_ok(old(self).texts@[i]));
                }
                assert forall|a: int, b: int|
                    0 <= a < self.texts@.len() && 0 <= b < self.texts@.len() && a != b implies {
                    &&& #[trigger] self.texts@[a].id != #[trigger] self.texts@[b].id
                    &&& !texts_conflict(self.texts@[a], self.texts@[b])
                } by {
                    assert(old(self).texts@[a].id != old(self).texts@[b].id);
                    assert(!texts_conflict(old(self).texts@[a], old(self).texts@[b]));
                }
            }
        }
    }
}

/// A component whose content may scroll inside its box.
pub trait ScrollableComponent {
    spec fn spec_scrollable(&self) -> bool;

    fn is_scrollable(&self) -> (r: bool)
        ensures
            r == self.spec_scrollable(),
    ;

    fn make_scrollable(&mut self)
        ensures
            final(self).spec_scrollable(),
    ;

    fn make_unscrollable(&mut self)
        ensures
            !final(self).spec_scrollable(),
    ;
}

impl ScrollableComponent for Container {
    /// A container scrolls when it carries the `"scrollable"` attribute.
    open spec fn spec_scrollable(&self) -> bool {
        self.attributes@.contains("scrollable"@)
    }

    fn is_scrollable(&self) -> (r: bool) {
        self.attributes.contains("scrollable")
    }

    fn make_scrollable(&mut self) {
        self.attributes.insert("scrollable");
    }

    fn make_unscrollable(&mut self) {
        self.attributes.remove("scrollable");
    }
}

impl LayoutRules for Container {
    open spec fn spec_layout(&self) -> Layout {
        self.layout
    }

    fn is_canvas(&self) -> (r: bool) {
        self.layout.is_canvas()
    }

    fn is_flex(&self) -> (r: bool) {
        self.layout.is_flex()
    }

    fn is_grid(&self) -> (r: bool) {
        self.layout.is_grid()
    }
}

impl Default for Container {
    /// An empty container of no size at the window's origin, id `[0, 0]`.
    fn default() -> (r: Container)
        ensures
            r.id == [0u8, 0u8],
            r.w == 0 && r.h == 0,
            r.hpos == 0 && r.vpos == 0,
            r.border == Border::Empty,
            r.padding == Padding::Empty,
            r.texts@.len() == 0,
            r.wf(),
    {
        Container::new([0, 0], 0, 0, 0, 0, Border::Empty, Padding::Empty)
    }
}

} // verus!
