use vstd::prelude::*;

use crate::border::Border;
use crate::container::Container;
use crate::geometry::{spec_extra_h, spec_extra_w};
use crate::padding::Padding;
use crate::text::Text;

verus! {

/// The sizes and edges of a component's box, for a renderer: the content,
/// the content with its padding and border, and the decorated box's edges
/// relative to the parent and in the window.
pub trait ComponentCoordinates {
    spec fn spec_content(&self) -> (u16, u16);

    spec fn spec_border(&self) -> Border;

    spec fn spec_padding(&self) -> Padding;

    /// Origin of the decorated box in the parent's content area.
    spec fn spec_origin(&self) -> (u16, u16);

    /// Origin of the decorated box in the window.
    spec fn spec_abs_origin(&self) -> (u16, u16);

    fn content(&self) -> (r: [u16; 2])
        ensures
            r[0] == self.spec_content().0,
            r[1] == self.spec_content().1,
    ;

    fn decoration(&self) -> (r: (Border, Padding))
        ensures
            r.0 == self.spec_border(),
            r.1 == self.spec_padding(),
    ;

    fn origin(&self) -> (r: [u16; 2])
        ensures
            r[0] == self.spec_origin().0,
            r[1] == self.spec_origin().1,
    ;

    fn abs_origin(&self) -> (r: [u16; 2])
        ensures
            r[0] == self.spec_abs_origin().0,
            r[1] == self.spec_abs_origin().1,
    ;

    /// Content width.
    fn w(&self) -> (r: u32)
        ensures
            r == self.spec_content().0,
    {
        self.content()[0] as u32
    }

    /// Content width with the inner padding.
    fn w_ip(&self) -> (r: u32)
        ensures
            r == self.spec_content().0 + self.spec_padding().spec_inner_left()
                + self.spec_padding().spec_inner_right(),
    {
        let s = self.decoration().1.sides();
        self.content()[0] as u32 + s[2] as u32 + s[3] as u32
    }

    /// Content width with the outer padding.
    fn w_op(&self) -> (r: u32)
        ensures
            r == self.spec_content().0 + self.spec_padding().spec_outer_left()
                + self.spec_padding().spec_outer_right(),
    {
        let s = self.decoration().1.sides();
        self.content()[0] as u32 + s[6] as u32 + s[7] as u32
    }

    /// Content width with the inner padding and the border.
    fn w_b_ip(&self) -> (r: u32)
        ensures
            r == self.spec_content().0 + self.spec_padding().spec_inner_left()
                + self.spec_padding().spec_inner_right() + self.spec_border().spec_left()
                + self.spec_border().spec_right(),
    {
        let d = self.decoration();
        let s = d.1.sides();
        self.content()[0] as u32 + s[2] as u32 + s[3] as u32 + d.0.left_cells() as u32
            + d.0.right_cells() as u32
    }

    /// Width of the decorated box: content, padding and border.
    fn w_b_p(&self) -> (r: u32)
        ensures
            r == self.spec_content().0 + spec_extra_w(self.spec_border(), self.spec_padding()),
    {
        let d = self.decoration();
        let s = d.1.sides();
        self.content()[0] as u32 + s[2] as u32 + s[3] as u32 + s[6] as u32 + s[7] as u32
            + d.0.left_cells() as u32 + d.0.right_cells() as u32
    }

    /// Content height.
    fn h(&self) -> (r: u32)
        ensures
            r == self.spec_content().1,
    {
        self.content()[1] as u32
    }

    /// Content height with the inner padding.
    fn h_ip(&self) -> (r: u32)
        ensures
            r == self.spec_content().1 + self.spec_padding().spec_inner_top()
                + self.spec_padding().spec_inner_bottom(),
    {
        let s = self.decoration().1.sides();
        self.content()[1] as u32 + s[0] as u32 + s[1] as u32
    }

    /// Content height with the inner padding and the border.
    fn h_ip_b(&self) -> (r: u32)
        ensures
            r == self.spec_content().1 + self.spec_padding().spec_inner_top()
                + self.spec_padding().spec_inner_bottom() + self.spec_border().spec_top()
                + self.spec_border().spec_bottom(),
    {
        let d = self.decoration();
        let s = d.1.sides();
        self.content()[1] as u32 + s[0] as u32 + s[1] as u32 + d.0.top_cells() as u32
            + d.0.bottom_cells() as u32
    }

    /// Content height with the outer padding.
    fn h_op(&self) -> (r: u32)
        ensures
            r == self.spec_content().1 + self.spec_padding().spec_outer_top()
                + self.spec_padding().spec_outer_bottom(),
    {
        let s = self.decoration().1.sides();
        self.content()[1] as u32 + s[4] as u32 + s[5] as u32
    }

    /// Height of the decorated box: content, padding and border.
    fn h_b_p(&self) -> (r: u32)
        ensures
            r == self.spec_content().1 + spec_extra_h(self.spec_border(), self.spec_padding()),
    {
        let d = self.decoration();
        let s = d.1.sides();
        self.content()[1] as u32 + s[0] as u32 + s[1] as u32 + s[4] as u32 + s[5] as u32
            + d.0.top_cells() as u32 + d.0.bottom_cells() as u32
    }

    /// Left edge of the decorated box in the parent.
    fn x0(&self) -> (r: u32)
        ensures
            r == self.spec_origin().0,
    {
        self.origin()[0] as u32
    }

    /// Right edge (exclusive) of the decorated box in the parent.
    fn x1(&self) -> (r: u32)
        ensures
            r == self.spec_origin().0 + self.spec_content().0 + spec_extra_w(
                self.spec_border(),
                self.spec_padding(),
            ),
    {
        self.origin()[0] as u32 + self.w_b_p()
    }

    /// Left edge of the decorated box in the window.
    fn ax0(&self) -> (r: u32)
        ensures
            r == self.spec_abs_origin().0,
    {
        self.abs_origin()[0] as u32
    }

    /// Right edge (exclusive) of the decorated box in the window.
    fn ax1(&self) -> (r: u32)
        ensures
            r == self.spec_abs_origin().0 + self.spec_content().0 + spec_extra_w(
                self.spec_border(),
                self.spec_padding(),
            ),
    {
        self.abs_origin()[0] as u32 + self.w_b_p()
    }

    /// Top edge of the decorated box in the parent.
    fn y0(&self) -> (r: u32)
        ensures
            r == self.spec_origin().1,
    {
        self.origin()[1] as u32
    }

    /// Bottom edge (exclusive) of the decorated box in the parent.
    fn y1(&self) -> (r: u32)
        ensures
            r == self.spec_origin().1 + self.spec_content().1 + spec_extra_h(
                self.spec_border(),
                self.spec_padding(),
            ),
    {
        self.origin()[1] as u32 + self.h_b_p()
    }

    /// Top edge of the decorated box in the window.
    fn ay0(&self) -> (r: u32)
        ensures
            r == self.spec_abs_origin().1,
    {
        self.abs_origin()[1] as u32
    }

    /// Bottom edge (exclusive) of the decorated box in the window.
    fn ay1(&self) -> (r: u32)
        ensures
            r == self.spec_abs_origin().1 + self.spec_content().1 + spec_extra_h(
                self.spec_border(),
                self.spec_padding(),
            ),
    {
        self.abs_origin()[1] as u32 + self.h_b_p()
    }
}

impl ComponentCoordinates for Text {
    open spec fn spec_content(&self) -> (u16, u16) {
        (self.w, self.h)
    }

    open spec fn spec_border(&self) -> Border {
        self.border
    }

    open spec fn spec_padding(&self) -> Padding {
        self.padding
    }

    open spec fn spec_origin(&self) -> (u16, u16) {
        (self.hpos, self.vpos)
    }

    open spec fn spec_abs_origin(&self) -> (u16, u16) {
        (self.ahpos, self.avpos)
    }

    fn content(&self) -> (r: [u16; 2]) {
        [self.w, self.h]
    }

    fn decoration(&self) -> (r: (Border, Padding)) {
        let b = self.border;
        let p = self.padding;
        assert(b == self.spec_border() && p == self.spec_padding());
        (b, p)
    }

    fn origin(&self) -> (r: [u16; 2]) {
        [self.hpos, self.vpos]
    }

    fn abs_origin(&self) -> (r: [u16; 2]) {
        [self.ahpos, self.avpos]
    }
}

impl ComponentCoordinates for Container {
    open spec fn spec_content(&self) -> (u16, u16) {
        (self.w, self.h)
    }

    open spec fn spec_border(&self) -> Border {
        self.border
    }

    open spec fn spec_padding(&self) -> Padding {
        self.padding
    }

    /// A container's parent is the window itself.
    open spec fn spec_origin(&self) -> (u16, u16) {
        (self.hpos, self.vpos)
    }

    open spec fn spec_abs_origin(&self) -> (u16, u16) {
        (self.hpos, self.vpos)
    }

    fn content(&self) -> (r: [u16; 2]) {
        [self.w, self.h]
    }

    fn decoration(&self) -> (r: (Border, Padding)) {
        let b = self.border;
        let p = self.padding;
        assert(b == self.spec_border() && p == self.spec_padding());
        (b, p)
    }

    fn origin(&self) -> (r: [u16; 2]) {
        [self.hpos, self.vpos]
    }

    fn abs_origin(&self) -> (r: [u16; 2]) {
        [self.hpos, self.vpos]
    }
}

} // verus!
