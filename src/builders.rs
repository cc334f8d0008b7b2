use vstd::prelude::*;

use crate::border::Border;
use crate::container::Container;
use crate::geometry::{resolve_wh, spec_anchor, spec_area, spec_extra_h, spec_extra_w, Area, Pos};
use crate::layout::Layout;
use crate::padding::Padding;
use crate::term::Term;
use crate::text::{spec_buffer, Text};

verus! {

/// Why a builder could not be materialized into a tree.
#[derive(Debug, Clone, Copy, PartialEq, Eq, Structural)]
pub enum BuilderTreeError {
    /// the builder's id is already used
    IdInUse,
}

/// Builder configuration errors.
#[derive(Debug, Clone, Copy, PartialEq, Eq, Structural)]
pub enum BuilderError {
    /// an editable text field cannot have an odd id
    InvalidInputId,
    /// a read-only text field cannot have an even id
    InvalidNoEditId,
    /// more id components than the component kind has
    TooManyIds,
}

/// The coordinate an anchor resolves to when the box fits on the axis, and
/// the axis start when it does not (the insertion then refuses the box).
pub open spec fn spec_anchor_or_start(pos: Pos, axis: int, size: int) -> int {
    if size > axis && (pos is Center || pos is End) {
        0
    } else {
        spec_anchor(pos, axis, size)
    }
}

fn anchor_or_start(pos: &Pos, axis: u16, size: u32) -> (r: u16)
    ensures
        r == spec_anchor_or_start(*pos, axis as int, size as int),
{
    match pos.point(axis, size) {
        Some(p) => p,
        None => 0,
    }
}

/// Stages the configuration of a window.
#[derive(Debug, Clone, Copy, PartialEq, Eq, Structural)]
pub struct TermBuilder {
    pub layout: Layout,
    pub area: Area,
    pub id: u8,
}

impl TermBuilder {
    /// A builder for a flex window of no size with id 0.
    pub fn new() -> (r: TermBuilder)
        ensures
            r == (TermBuilder { layout: Layout::Flex, area: Area::Zero, id: 0 }),
    {
        TermBuilder { layout: Layout::Flex, area: Area::Zero, id: 0 }
    }

    /// Sets the id of the next window.
    pub fn id(self, id: u8) -> (r: TermBuilder)
        ensures
            r == (TermBuilder { id, ..self }),
    {
        TermBuilder { id, ..self }
    }

    pub fn layout(self, layout: Layout) -> (r: TermBuilder)
        ensures
            r == (TermBuilder { layout, ..self }),
    {
        TermBuilder { layout, ..self }
    }

    pub fn area(self, area: Area) -> (r: TermBuilder)
        ensures
            r == (TermBuilder { area, ..self }),
    {
        TermBuilder { area, ..self }
    }

    /// Resets every setting to its default.
    pub fn clear(self) -> (r: TermBuilder)
        ensures
            r == (TermBuilder { layout: Layout::Flex, area: Area::Zero, id: 0 }),
    {
        TermBuilder::new()
    }

    /// Sets the id of the next window.
    pub fn offset_id(&mut self, id: u8)
        ensures
            *final(self) == (TermBuilder { id, ..*old(self) }),
    {
        self.id = id;
    }

    /// Moves to the next id; the last id stays.
    fn bump_id(&mut self)
        ensures
            *final(self) == (TermBuilder {
                id: if old(self).id < 255 {
                    (old(self).id + 1) as u8
                } else {
                    old(self).id
                },
                ..*old(self)
            }),
    {
        if self.id < 255 {
            self.id = self.id + 1;
        }
    }

    /// Materializes a window in a terminal of `cols` x `rows` (the size a
    /// `Fill` area takes), and moves to the next id. Nothing is validated.
    pub fn build(&mut self, cols: u16, rows: u16) -> (r: Term)
        ensures
            r.id == old(self).id,
            r.layout == old(self).layout,
            r.w == spec_area(old(self).area, cols, rows).0,
            r.h == spec_area(old(self).area, cols, rows).1,
            r.containers@.len() == 0,
            r.wf(),
            *final(self) == (TermBuilder {
                id: if old(self).id < 255 {
                    (old(self).id + 1) as u8
                } else {
                    old(self).id
                },
                ..*old(self)
            }),
    {
        let wh = self.area.unwrap(cols, rows);
        let mut t = Term::new(self.id, wh[0], wh[1]);
        t.layout = self.layout;
        self.bump_id();
        t
    }
}

/// Stages the configuration of a container.
#[derive(Debug, Clone, Copy)]
pub struct ContainerBuilder {
    pub layer: u8,
    pub id: [u8; 2],
    pub border: Border,
    pub padding: Padding,
    pub area: Area,
    pub layout: Layout,
    pub hpos: Pos,
    pub vpos: Pos,
}

impl ContainerBuilder {
    /// A builder for a centered flex container filling its window, without
    /// border or padding, with id `[0, 0]`.
    pub fn new() -> (r: ContainerBuilder)
        ensures
            r == (ContainerBuilder {
                layer: 0,
                id: [0u8, 0u8],
                border: Border::Empty,
                padding: Padding::Empty,
                area: Area::Fill,
                layout: Layout::Flex,
                hpos: Pos::Center,
                vpos: Pos::Center,
            }),
    {
        ContainerBuilder {
            layer: 0,
            id: [0, 0],
            border: Border::Empty,
            padding: Padding::Empty,
            area: Area::Fill,
            layout: Layout::Flex,
            hpos: Pos::Center,
            vpos: Pos::Center,
        }
    }

    /// Overlay is not implemented: the setting is accepted and ignored.
    pub fn overlay(self, overlay: bool) -> (r: ContainerBuilder)
        ensures
            r == self,
    {
        self
    }

    pub fn layer(self, layer: u8) -> (r: ContainerBuilder)
        ensures
            r == (ContainerBuilder { layer, ..self }),
    {
        ContainerBuilder { layer, ..self }
    }

    pub fn border(self, border: Border) -> (r: ContainerBuilder)
        ensures
            r == (ContainerBuilder { border, ..self }),
    {
        ContainerBuilder { border, ..self }
    }

    pub fn padding(self, padding: Padding) -> (r: ContainerBuilder)
        ensures
            r == (ContainerBuilder { padding, ..self }),
    {
        ContainerBuilder { padding, ..self }
    }

    pub fn area(self, area: Area) -> (r: ContainerBuilder)
        ensures
            r == (ContainerBuilder { area, ..self }),
    {
        ContainerBuilder { area, ..self }
    }

    pub fn hpos(self, hpos: Pos) -> (r: ContainerBuilder)
        ensures
            r == (ContainerBuilder { hpos, ..self }),
    {
        ContainerBuilder { hpos, ..self }
    }

    pub fn vpos(self, vpos: Pos) -> (r: ContainerBuilder)
        ensures
            r == (ContainerBuilder { vpos, ..self }),
    {
        ContainerBuilder { vpos, ..self }
    }

    pub fn layout(self, layout: Layout) -> (r: ContainerBuilder)
        ensures
            r == (ContainerBuilder { layout, ..self }),
    {
        ContainerBuilder { layout, ..self }
    }

    /// Sets the window component of the id.
    pub fn bump_tid(&mut self, id: u8)
        ensures
            *final(self) == (ContainerBuilder { id: [id, old(self).id[1]], ..*old(self) }),
    {
        self.id = [id, self.id[1]];
    }

    /// Sets the container component of the id.
    pub fn bump_cid(&mut self, id: u8)
        ensures
            *final(self) == (ContainerBuilder { id: [old(self).id[0], id], ..*old(self) }),
    {
        self.id = [self.id[0], id];
    }

    pub fn id(&self) -> (r: [u8; 2])
        ensures
            r == self.id,
    {
        self.id
    }

    /// Sets the high-order id components given: none, the window's, or
    /// both. More than two components are refused and change nothing.
    /// Returns how many components were taken.
    pub fn offset_id(&mut self, id: Vec<u8>) -> (r: Result<u8, BuilderError>)
        ensures
            id@.len() == 0 ==> r == Ok::<u8, BuilderError>(0) && *final(self) == *old(self),
            id@.len() == 1 ==> r == Ok::<u8, BuilderError>(1) && *final(self) == (ContainerBuilder {
                id: [id@[0], old(self).id[1]],
                ..*old(self)
            }),
            id@.len() == 2 ==> r == Ok::<u8, BuilderError>(2) && *final(self) == (ContainerBuilder {
                id: [id@[0], id@[1]],
                ..*old(self)
            }),
            id@.len() > 2 ==> r == Err::<u8, BuilderError>(BuilderError::TooManyIds)
                && *final(self) == *old(self),
    {
        if id.len() == 0 {
            Ok(0)
        } else if id.len() == 1 {
            self.id = [id[0], self.id[1]];
            Ok(1)
        } else if id.len() == 2 {
            self.id = [id[0], id[1]];
            Ok(2)
        } else {
            Err(BuilderError::TooManyIds)
        }
    }

    /// Resets every setting to its default.
    pub fn clear(self) -> (r: ContainerBuilder)
        ensures
            r == (ContainerBuilder {
                layer: 0,
                id: [0u8, 0u8],
                border: Border::Empty,
                padding: Padding::Empty,
                area: Area::Fill,
                layout: Layout::Flex,
                hpos: Pos::Center,
                vpos: Pos::Center,
            }),
    {
        ContainerBuilder::new()
    }

    /// Materializes the container in a window of `pw` x `ph`: the area and
    /// the anchors are resolved there. Nothing is validated; a box that does
    /// not fit keeps its size, is placed at the window's start, and is
    /// refused when pushed.
    pub fn build(&mut self, pw: u16, ph: u16) -> (r: Container)
        ensures
            ({
                let (w, h) = spec_area(old(self).area, pw, ph);
                let dw = w + spec_extra_w(old(self).border, old(self).padding);
                let dh = h + spec_extra_h(old(self).border, old(self).padding);
                &&& r.id == old(self).id
                &&& r.w == w
                &&& r.h == h
                &&& r.hpos == spec_anchor_or_start(old(self).hpos, pw as int, dw)
                &&& r.vpos == spec_anchor_or_start(old(self).vpos, ph as int, dh)
                &&& r.border == old(self).border
                &&& r.padding == old(self).padding
                &&& r.layout == old(self).layout
                &&& r.texts@.len() == 0
                &&& r.wf()
            }),
            *final(self) == *old(self),
    {
        let wh = self.area.unwrap(pw, ph);
        let extra = resolve_wh(&self.border, &self.padding);
        let hpos = anchor_or_start(&self.hpos, pw, wh[0] as u32 + extra[0]);
        let vpos = anchor_or_start(&self.vpos, ph, wh[1] as u32 + extra[1]);
        let mut c = Container::new(self.id, hpos, vpos, wh[0], wh[1], self.border, self.padding);
        c.layout = self.layout;
        c
    }
}

/// Stages the configuration of an editable text field.
#[derive(Debug, Clone, Copy)]
pub struct TextBuilder {
    pub layer: u8,
    pub id: [u8; 3],
    pub border: Border,
    pub padding: Padding,
    pub area: Area,
    pub hpos: Pos,
    pub vpos: Pos,
}

impl TextBuilder {
    /// A builder for a centered field filling its container, without border
    /// or padding, with id `[0, 0, 0]`.
    pub fn new() -> (r: TextBuilder)
        ensures
            r == (TextBuilder {
                layer: 0,
                id: [0u8, 0u8, 0u8],
                border: Border::Empty,
                padding: Padding::Empty,
                area: Area::Fill,
                hpos: Pos::Center,
                vpos: Pos::Center,
            }),
    {
        TextBuilder {
            layer: 0,
            id: [0, 0, 0],
            border: Border::Empty,
            padding: Padding::Empty,
            area: Area::Fill,
            hpos: Pos::Center,
            vpos: Pos::Center,
        }
    }

    pub fn layer(self, layer: u8) -> (r: TextBuilder)
        ensures
            r == (TextBuilder { layer, ..self }),
    {
        TextBuilder { layer, ..self }
    }

    pub fn border(self, border: Border) -> (r: TextBuilder)
        ensures
            r == (TextBuilder { border, ..self }),
    {
        TextBuilder { border, ..self }
    }

    pub fn padding(self, padding: Padding) -> (r: TextBuilder)
        ensures
            r == (TextBuilder { padding, ..self }),
    {
        TextBuilder { padding, ..self }
    }

    pub fn area(self, area: Area) -> (r: TextBuilder)
        ensures
            r == (TextBuilder { area, ..self }),
    {
        TextBuilder { area, ..self }
    }

    pub fn hpos(self, hpos: Pos) -> (r: TextBuilder)
        ensures
            r == (TextBuilder { hpos, ..self }),
    {
        TextBuilder { hpos, ..self }
    }

    pub fn vpos(self, vpos: Pos) -> (r: TextBuilder)
        ensures
            r == (TextBuilder { vpos, ..self }),
    {
        TextBuilder { vpos, ..self }
    }

    /// Resets every setting to its default.
    pub fn clear(self) -> (r: TextBuilder)
        ensures
            r == (TextBuilder {
                layer: 0,
                id: [0u8, 0u8, 0u8],
                border: Border::Empty,
                padding: Padding::Empty,
                area: Area::Fill,
                hpos: Pos::Center,
                vpos: Pos::Center,
            }),
    {
        TextBuilder::new()
    }

    /// Moves the window component to the next value; the last value stays.
    pub fn bump_tid(&mut self)
        ensures
            *final(self) == (TextBuilder {
                id: [
                    if old(self).id[0] < 255 {
                        (old(self).id[0] + 1) as u8
                    } else {
                        old(self).id[0]
                    },
                    old(self).id[1],
                    old(self).id[2],
                ],
                ..*old(self)
            }),
    {
        let next = if self.id[0] < 255 {
            self.id[0] + 1
        } else {
            self.id[0]
        };
        self.id = [next, self.id[1], self.id[2]];
    }

    /// Moves the container component to the next value; the last value
    /// stays.
    pub fn bump_cid(&mut self)
        ensures
            *final(self) == (TextBuilder {
                id: [
                    old(self).id[0],
                    if old(self).id[1] < 255 {
                        (old(self).id[1] + 1) as u8
                    } else {
                        old(self).id[1]
                    },
                    old(self).id[2],
                ],
                ..*old(self)
            }),
    {
        let next = if self.id[1] < 255 {
            self.id[1] + 1
        } else {
            self.id[1]
        };
        self.id = [self.id[0], next, self.id[2]];
    }

    /// Moves the text component to the next id of the same parity; the
    /// last one stays.
    pub fn bump_iid(&mut self)
        ensures
            *final(self) == (TextBuilder {
                id: [
                    old(self).id[0],
                    old(self).id[1],
                    if old(self).id[2] < 254 {
                        (old(self).id[2] + 2) as u8
                    } else {
                        old(self).id[2]
                    },
                ],
                ..*old(self)
            }),
    {
        let next = if self.id[2] < 254 {
            self.id[2] + 2
        } else {
            self.id[2]
        };
        self.id = [self.id[0], self.id[1], next];
    }

    /// The id of the parent container.
    pub fn cid(&self) -> (r: [u8; 2])
        ensures
            r == [self.id[0], self.id[1]],
    {
        [self.id[0], self.id[1]]
    }

    pub fn id(&self) -> (r: [u8; 3])
        ensures
            r == self.id,
    {
        self.id
    }

    /// Sets the high-order id components given: none, the window's, the
    /// window's and the container's, or all three (the last must be even).
    /// More than three components, or an odd text component, are refused
    /// and change nothing. Returns how many components were taken.
    pub fn offset_id(&mut self, id: Vec<u8>) -> (r: Result<u8, BuilderError>)
        ensures
            id@.len() == 0 ==> r == Ok::<u8, BuilderError>(0) && *final(self) == *old(self),
            id@.len() == 1 ==> r == Ok::<u8, BuilderError>(1) && *final(self) == (TextBuilder {
                id: [id@[0], old(self).id[1], old(self).id[2]],
                ..*old(self)
            }),
            id@.len() == 2 ==> r == Ok::<u8, BuilderError>(2) && *final(self) == (TextBuilder {
                id: [id@[0], id@[1], old(self).id[2]],
                ..*old(self)
            }),
            id@.len() == 3 && id@[2] % 2 != 0 ==> r == Err::<u8, BuilderError>(
                BuilderError::InvalidInputId,
            ) && *final(self) == *old(self),
            id@.len() == 3 && id@[2] % 2 == 0 ==> r == Ok::<u8, BuilderError>(3) && *final(self)
                == (TextBuilder { id: [id@[0], id@[1], id@[2]], ..*old(self) }),
            id@.len() > 3 ==> r == Err::<u8, BuilderError>(BuilderError::TooManyIds)
                && *final(self) == *old(self),
    {
        if id.len() == 0 {
            Ok(0)
        } else if id.len() == 1 {
            self.id = [id[0], self.id[1], self.id[2]];
            Ok(1)
        } else if id.len() == 2 {
            self.id = [id[0], id[1], self.id[2]];
            Ok(2)
        } else if id.len() == 3 {
            if id[2] % 2 != 0 {
                return Err(BuilderError::InvalidInputId);
            }
            self.id = [id[0], id[1], id[2]];
            Ok(3)
        } else {
            Err(BuilderError::TooManyIds)
        }
    }

    /// Materializes an empty field in a container content area of `pw` x
    /// `ph` (the area and the anchors are resolved there), and moves to the
    /// next id of the same parity. Nothing is validated; the absolute origin
    /// is set when the field is pushed.
    pub fn build(&mut self, pw: u16, ph: u16) -> (r: Text)
        ensures
            ({
                let (w, h) = spec_area(old(self).area, pw, ph);
                let dw = w + spec_extra_w(old(self).border, old(self).padding);
                let dh = h + spec_extra_h(old(self).border, old(self).padding);
                &&& r.id == old(self).id
                &&& r.w == w
                &&& r.h == h
                &&& r.hpos == spec_anchor_or_start(old(self).hpos, pw as int, dw)
                &&& r.vpos == spec_anchor_or_start(old(self).vpos, ph as int, dh)
                &&& r.border == old(self).border
                &&& r.padding == old(self).padding
                &&& r.layer == old(self).layer
                &&& r.editable == (old(self).id[2] % 2 == 0)
                &&& r.value@ == spec_buffer(Seq::<Option<char>>::empty(), w * h)
                &&& r.crsh == 0 && r.crsv == 0
                &&& r.attributes@ == Set::<Seq<char>>::empty()
            }),
            *final(self) == (TextBuilder {
                id: [
                    old(self).id[0],
                    old(self).id[1],
                    if old(self).id[2] < 254 {
                        (old(self).id[2] + 2) as u8
                    } else {
                        old(self).id[2]
                    },
                ],
                ..*old(self)
            }),
    {
        let wh = self.area.unwrap(pw, ph);
        let extra = resolve_wh(&self.border, &self.padding);
        let hpos = anchor_or_start(&self.hpos, pw, wh[0] as u32 + extra[0]);
        let vpos = anchor_or_start(&self.vpos, ph, wh[1] as u32 + extra[1]);
        let empty: Vec<Option<char>> = Vec::new();
        let mut t = Text::new(
            self.id,
            hpos,
            vpos,
            0,
            0,
            wh[0],
            wh[1],
            empty.as_slice(),
            self.border,
            self.padding,
        );
        t.layer = self.layer;
        self.bump_iid();
        t
    }
}

} // verus!
