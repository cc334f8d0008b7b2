use vstd::prelude::*;

use crate::padding::Padding;

verus! {

/// The frame drawn around a widget. Every edge that is drawn takes one cell.
#[derive(Debug, Clone, Copy, PartialEq, Eq, Structural)]
pub enum Border {
    /// no border
    Empty,
    /// one glyph on every edge and corner
    Uniform(char),
    /// one glyph per edge, and one for all corners
    Polyform { top: char, bottom: char, left: char, right: char, corner: char },
    /// an explicit glyph table; an edge without a glyph is not drawn
    Manual {
        top: Option<char>,
        bottom: Option<char>,
        left: Option<char>,
        right: Option<char>,
        top_left: Option<char>,
        top_right: Option<char>,
        bottom_left: Option<char>,
        bottom_right: Option<char>,
    },
}

/// One cell for a drawn edge, none otherwise.
pub open spec fn edge_cells(glyph: Option<char>) -> int {
    if glyph is Some {
        1
    } else {
        0
    }
}

impl Border {
    pub open spec fn spec_top(self) -> int {
        match self {
            Border::Empty => 0,
            Border::Manual { top, .. } => edge_cells(top),
            _ => 1,
        }
    }

    pub open spec fn spec_bottom(self) -> int {
        match self {
            Border::Empty => 0,
            Border::Manual { bottom, .. } => edge_cells(bottom),
            _ => 1,
        }
    }

    pub open spec fn spec_left(self) -> int {
        match self {
            Border::Empty => 0,
            Border::Manual { left, .. } => edge_cells(left),
            _ => 1,
        }
    }

    pub open spec fn spec_right(self) -> int {
        match self {
            Border::Empty => 0,
            Border::Manual { right, .. } => edge_cells(right),
            _ => 1,
        }
    }

    /// A manual glyph table is consistent with a padding when a corner glyph
    /// stands wherever two drawn edges meet, and no inner padding is asked
    /// for on a side whose edge is not drawn (inner padding lies between the
    /// content and the border). Other borders always fit.
    pub open spec fn spec_fits(self, padding: Padding) -> bool {
        match self {
            Border::Manual {
                top,
                bottom,
                left,
                right,
                top_left,
                top_right,
                bottom_left,
                bottom_right,
            } => {
                &&& (top is Some && left is Some ==> top_left is Some)
                &&& (top is Some && right is Some ==> top_right is Some)
                &&& (bottom is Some && left is Some ==> bottom_left is Some)
                &&& (bottom is Some && right is Some ==> bottom_right is Some)
                &&& (top is None ==> padding.spec_inner_top() == 0)
                &&& (bottom is None ==> padding.spec_inner_bottom() == 0)
                &&& (left is None ==> padding.spec_inner_left() == 0)
                &&& (right is None ==> padding.spec_inner_right() == 0)
            },
            _ => true,
        }
    }

    /// Cells taken by the top edge.
    pub fn top_cells(&self) -> (r: u16)
        ensures
            r == self.spec_top(),
    {
        match self {
            Border::Empty => 0,
            Border::Manual { top, .. } => if top.is_some() { 1 } else { 0 },
            _ => 1,
        }
    }

    /// Cells taken by the bottom edge.
    pub fn bottom_cells(&self) -> (r: u16)
        ensures
            r == self.spec_bottom(),
    {
        match self {
            Border::Empty => 0,
            Border::Manual { bottom, .. } => if bottom.is_some() { 1 } else { 0 },
            _ => 1,
        }
    }

    /// Cells taken by the left edge.
    pub fn left_cells(&self) -> (r: u16)
        ensures
            r == self.spec_left(),
    {
        match self {
            Border::Empty => 0,
            Border::Manual { left, .. } => if left.is_some() { 1 } else { 0 },
            _ => 1,
        }
    }

    /// Cells taken by the right edge.
    pub fn right_cells(&self) -> (r: u16)
        ensures
            r == self.spec_right(),
    {
        match self {
            Border::Empty => 0,
            Border::Manual { right, .. } => if right.is_some() { 1 } else { 0 },
            _ => 1,
        }
    }
}

/// Whether a border's glyph table is consistent with the padding it is used
/// with (see `Border::spec_fits`).
pub fn border_fit(border: &Border, padding: &Padding) -> (r: bool)
    ensures
        r == border.spec_fits(*padding),
{
    match *border {
        Border::Manual { top, bottom, left, right, top_left, top_right, bottom_left, bottom_right } => {
            let corners = (!(top.is_some() && left.is_some()) || top_left.is_some()) && (!(
            top.is_some() && right.is_some()) || top_right.is_some()) && (!(bottom.is_some()
                && left.is_some()) || bottom_left.is_some()) && (!(bottom.is_some()
                && right.is_some()) || bottom_right.is_some());
            let s = padding.sides();
            let inner = (top.is_some() || s[0] == 0) && (bottom.is_some() || s[1] == 0) && (
            right.is_some() || s[2] == 0) && (left.is_some() || s[3] == 0);
            corners && inner
        },
        _ => true,
    }
}

} // verus!
