use vstd::prelude::*;

use crate::border::Border;
use crate::padding::Padding;

verus! {

/// An anchor: how a widget's origin is placed along one axis of its parent.
#[derive(Debug, Clone, Copy, PartialEq, Eq, Structural)]
pub enum Pos {
    /// at the start of the axis
    Start,
    /// centered on the axis
    Center,
    /// so that the decorated box touches the far edge
    End,
    /// at this literal coordinate
    Value(u16),
}

/// The content size asked for a widget.
#[derive(Debug, Clone, Copy, PartialEq, Eq, Structural)]
pub enum Area {
    /// no content at all
    Zero,
    /// the parent's full interior
    Fill,
    /// these literal sizes
    Values { w: u16, h: u16 },
}

/// The coordinate an anchor gives on an axis of length `axis` for a box of
/// length `size`, when the box fits on the axis.
pub open spec fn spec_anchor(pos: Pos, axis: int, size: int) -> int {
    match pos {
        Pos::Start => 0,
        Pos::Center => (axis - size) / 2,
        Pos::End => axis - size,
        Pos::Value(n) => n as int,
    }
}

impl Pos {
    /// Resolves the anchor on an axis of length `axis` for a decorated box of
    /// length `size`; `None` when the anchor is relative and the box does not
    /// fit on the axis.
    pub fn point(&self, axis: u16, size: u32) -> (r: Option<u16>)
        ensures
            r == (if size > axis && (*self is Center || *self is End) {
                None::<u16>
            } else {
                Some(spec_anchor(*self, axis as int, size as int) as u16)
            }),
    {
        match *self {
            Pos::Start => Some(0),
            Pos::Value(n) => Some(n),
            Pos::Center => {
                if size > axis as u32 {
                    None
                } else {
                    Some(((axis as u32 - size) / 2) as u16)
                }
            },
            Pos::End => {
                if size > axis as u32 {
                    None
                } else {
                    Some((axis as u32 - size) as u16)
                }
            },
        }
    }
}

/// The content size an area asks for inside a parent interior of `pw` x `ph`.
pub open spec fn spec_area(area: Area, pw: u16, ph: u16) -> (u16, u16) {
    match area {
        Area::Zero => (0, 0),
        Area::Fill => (pw, ph),
        Area::Values { w, h } => (w, h),
    }
}

impl Area {
    /// The content size this area asks for inside a parent interior of
    /// `pw` x `ph`.
    pub fn unwrap(&self, pw: u16, ph: u16) -> (r: [u16; 2])
        ensures
            r[0] == spec_area(*self, pw, ph).0,
            r[1] == spec_area(*self, pw, ph).1,
    {
        match *self {
            Area::Zero => [0, 0],
            Area::Fill => [pw, ph],
            Area::Values { w, h } => [w, h],
        }
    }

    /// The literal width, if the area does not depend on its parent.
    pub fn width(&self) -> (r: Option<u16>)
        ensures
            r == (match *self {
                Area::Zero => Some(0u16),
                Area::Fill => None::<u16>,
                Area::Values { w, .. } => Some(w),
            }),
    {
        match *self {
            Area::Zero => Some(0),
            Area::Fill => None,
            Area::Values { w, .. } => Some(w),
        }
    }

    /// The literal height, if the area does not depend on its parent.
    pub fn height(&self) -> (r: Option<u16>)
        ensures
            r == (match *self {
                Area::Zero => Some(0u16),
                Area::Fill => None::<u16>,
                Area::Values { h, .. } => Some(h),
            }),
    {
        match *self {
            Area::Zero => Some(0),
            Area::Fill => None,
            Area::Values { h, .. } => Some(h),
        }
    }
}

/// Cells that border and padding add left of the content.
pub open spec fn spec_left_offset(border: Border, padding: Padding) -> int {
    padding.spec_outer_left() + border.spec_left() + padding.spec_inner_left()
}

/// Cells that border and padding add above the content.
pub open spec fn spec_top_offset(border: Border, padding: Padding) -> int {
    padding.spec_outer_top() + border.spec_top() + padding.spec_inner_top()
}

/// Width that border and padding add to the content.
pub open spec fn spec_extra_w(border: Border, padding: Padding) -> int {
    border.spec_left() + border.spec_right() + padding.spec_extra_w()
}

/// Height that border and padding add to the content.
pub open spec fn spec_extra_h(border: Border, padding: Padding) -> int {
    border.spec_top() + border.spec_bottom() + padding.spec_extra_h()
}

/// The extra width and height that a border and a padding add to a content
/// area; the decorated size is the content size plus these.
pub fn resolve_wh(border: &Border, padding: &Padding) -> (r: [u32; 2])
    ensures
        r[0] == spec_extra_w(*border, *padding),
        r[1] == spec_extra_h(*border, *padding),
{
    let s = padding.sides();
    let w = border.left_cells() as u32 + border.right_cells() as u32 + s[2] as u32 + s[3] as u32
        + s[6] as u32 + s[7] as u32;
    let h = border.top_cells() as u32 + border.bottom_cells() as u32 + s[0] as u32 + s[1] as u32
        + s[4] as u32 + s[5] as u32;
    [w, h]
}

/// Offset of the content from the top-left corner of the decorated box:
/// `[left, top]`.
pub fn content_offset(border: &Border, padding: &Padding) -> (r: [u32; 2])
    ensures
        r[0] == spec_left_offset(*border, *padding),
        r[1] == spec_top_offset(*border, *padding),
{
    let s = padding.sides();
    [
        s[7] as u32 + border.left_cells() as u32 + s[3] as u32,
        s[4] as u32 + border.top_cells() as u32 + s[0] as u32,
    ]
}

/// Whether the extents `[a, a + al)` and `[b, b + bl)` overlap: each starts
/// before the other ends.
pub open spec fn extents_overlap(a: int, al: int, b: int, bl: int) -> bool {
    a < b + bl && b < a + al
}

/// Whether two rectangles, each given by origin and size, overlap on both
/// axes.
pub open spec fn spec_rects_conflict(
    ax: int,
    ay: int,
    aw: int,
    ah: int,
    bx: int,
    by: int,
    bw: int,
    bh: int,
) -> bool {
    extents_overlap(ax, aw, bx, bw) && extents_overlap(ay, ah, by, bh)
}

/// Signed margins between rectangle A and rectangle B, as
/// `[top, right, bottom, left]`: how far B's bottom edge lies below A's top
/// edge, A's right edge right of B's left edge, A's bottom edge below B's top
/// edge, and B's right edge right of A's left edge. The rectangles overlap
/// exactly when all four are positive.
pub fn area_conflicts(
    ax: u32,
    ay: u32,
    aw: u32,
    ah: u32,
    bx: u32,
    by: u32,
    bw: u32,
    bh: u32,
) -> (r: [i64; 4])
    ensures
        r[0] == by + bh - ay,
        r[1] == ax + aw - bx,
        r[2] == ay + ah - by,
        r[3] == bx + bw - ax,
{
    [
        by as i64 + bh as i64 - ay as i64,
        ax as i64 + aw as i64 - bx as i64,
        ay as i64 + ah as i64 - by as i64,
        bx as i64 + bw as i64 - ax as i64,
    ]
}

/// Whether two rectangles, each given by origin and size, overlap on both
/// axes.
pub fn rects_conflict(
    ax: u32,
    ay: u32,
    aw: u32,
    ah: u32,
    bx: u32,
    by: u32,
    bw: u32,
    bh: u32,
) -> (r: bool)
    ensures
        r == spec_rects_conflict(
            ax as int,
            ay as int,
            aw as int,
            ah as int,
            bx as int,
            by as int,
            bw as int,
            bh as int,
        ),
{
    let m = area_conflicts(ax, ay, aw, ah, bx, by, bw, bh);
    m[0] > 0 && m[1] > 0 && m[2] > 0 && m[3] > 0
}

/// The absolute origin of a text field: its container's origin in the
/// window, plus the container's own border and padding before the content,
/// plus the text's origin relative to that content.
pub open spec fn spec_text_abs_origin(
    chpos: u16,
    cvpos: u16,
    cborder: Border,
    cpadding: Padding,
    thpos: u16,
    tvpos: u16,
) -> (int, int) {
    (
        chpos + spec_left_offset(cborder, cpadding) + thpos,
        cvpos + spec_top_offset(cborder, cpadding) + tvpos,
    )
}

/// Computes the absolute origin of a text field from its container's
/// origin, border and padding and its own relative origin.
pub fn calc_text_abs_ori(
    chpos: u16,
    cvpos: u16,
    cborder: &Border,
    cpadding: &Padding,
    thpos: u16,
    tvpos: u16,
) -> (r: [u32; 2])
    ensures
        r[0] == spec_text_abs_origin(chpos, cvpos, *cborder, *cpadding, thpos, tvpos).0,
        r[1] == spec_text_abs_origin(chpos, cvpos, *cborder, *cpadding, thpos, tvpos).1,
{
    let off = content_offset(cborder, cpadding);
    [chpos as u32 + off[0] + thpos as u32, cvpos as u32 + off[1] + tvpos as u32]
}

/// The absolute origin of a text field depends on nothing but its
/// container's origin, border and padding and its own relative origin: equal
/// inputs give equal results, whatever else differs around them.
pub proof fn lemma_abs_origin_determined(
    chpos: u16,
    cvpos: u16,
    cborder: Border,
    cpadding: Padding,
    thpos: u16,
    tvpos: u16,
    r1: [u32; 2],
    r2: [u32; 2],
)
    requires
        r1[0] == spec_text_abs_origin(chpos, cvpos, cborder, cpadding, thpos, tvpos).0,
        r1[1] == spec_text_abs_origin(chpos, cvpos, cborder, cpadding, thpos, tvpos).1,
        r2[0] == spec_text_abs_origin(chpos, cvpos, cborder, cpadding, thpos, tvpos).0,
        r2[1] == spec_text_abs_origin(chpos, cvpos, cborder, cpadding, thpos, tvpos).1,
    ensures
        r1 == r2,
{
    assert(r1 =~= r2);
}

} // verus!
