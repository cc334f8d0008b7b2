use vstd::prelude::*;

use crate::attributes::Attributes;
use crate::border::Border;
use crate::geometry::{spec_extra_h, spec_extra_w};
use crate::padding::Padding;
use crate::property::Properties;

verus! {

/// The content buffer of a text field of capacity `cap`: the initial value,
/// then empty cells up to the capacity.
pub open spec fn spec_buffer(value: Seq<Option<char>>, cap: int) -> Seq<Option<char>> {
    value + Seq::new((cap - value.len()) as nat, |i: int| None::<char>)
}

/// The number of cells of a `w` x `h` content area.
pub fn capacity(w: u16, h: u16) -> (r: u32)
    ensures
        r == w * h,
{
    assert((w as int) * (h as int) <= 65535 * 65535) by (nonlinear_arith)
        requires
            w <= 65535,
            h <= 65535,
    ;
    (w as u32) * (h as u32)
}

/// A leaf widget holding a fixed-capacity character buffer. Its id's last
/// component is even for an editable field and odd for a read-only one.
#[derive(Debug)]
pub struct Text {
    /// render priority among siblings
    pub layer: u8,
    /// window, container and text components
    pub id: [u8; 3],
    /// value kept aside while the history is scrolled
    pub temp: Vec<Option<char>>,
    /// the content buffer, `w * h` cells
    pub value: Vec<Option<char>>,
    /// history cursor
    pub hicu: usize,
    /// content width
    pub w: u16,
    /// content height
    pub h: u16,
    /// cursor column inside the content
    pub crsh: u16,
    /// cursor row inside the content
    pub crsv: u16,
    /// origin column relative to the container's content
    pub hpos: u16,
    /// origin row relative to the container's content
    pub vpos: u16,
    /// origin column in the window
    pub ahpos: u16,
    /// origin row in the window
    pub avpos: u16,
    pub border: Border,
    pub padding: Padding,
    pub properties: Properties,
    pub attributes: Attributes,
    /// whether the user may edit the content
    pub editable: bool,
}

impl Text {
    /// Width of the decorated box: content, border and padding.
    pub open spec fn spec_dw(&self) -> int {
        self.w + spec_extra_w(self.border, self.padding)
    }

    /// Height of the decorated box: content, border and padding.
    pub open spec fn spec_dh(&self) -> int {
        self.h + spec_extra_h(self.border, self.padding)
    }

    /// The editable flag agrees with the parity of the id.
    pub open spec fn parity_ok(&self) -> bool {
        (self.id[2] % 2 == 0) == self.editable
    }

    /// Creates a text field; its buffer holds `value` followed by empty cells
    /// up to `w * h`, and it is editable exactly when its id is even.
    pub fn new(
        id: [u8; 3],
        hpos: u16,
        vpos: u16,
        ahpos: u16,
        avpos: u16,
        w: u16,
        h: u16,
        value: &[Option<char>],
        border: Border,
        padding: Padding,
    ) -> (r: Text)
        requires
            value@.len() <= w * h,
        ensures
            r.id == id,
            r.hpos == hpos,
            r.vpos == vpos,
            r.ahpos == ahpos,
            r.avpos == avpos,
            r.w == w,
            r.h == h,
            r.value@ == spec_buffer(value@, w * h),
            r.border == border,
            r.padding == padding,
            r.editable == (id[2] % 2 == 0),
            r.crsh == 0,
            r.crsv == 0,
            r.layer == 0,
            r.hicu == 0,
            r.temp@.len() == 0,
            r.attributes@ == Set::<Seq<char>>::empty(),
            r.properties@ == Map::<Seq<char>, crate::property::Property>::empty(),
    {
        let cap: usize = capacity(w, h) as usize;
        let mut buf: Vec<Option<char>> = Vec::new();
        let mut i: usize = 0;
        while i < value.len()
            invariant
                0 <= i <= value@.len(),
                buf@ == value@.take(i as int),
            decreases value@.len() - i,
        {
            buf.push(value[i]);
            i += 1;
            assert(buf@ =~= value@.take(i as int));
        }
        assert(value@.take(value@.len() as int) =~= value@);
        while i < cap
            invariant
                value@.len() <= i <= cap,
                cap == w * h,
                buf@ == spec_buffer(value@, i as int),
            decreases cap - i,
        {
            buf.push(None);
            i += 1;
            assert(buf@ =~= spec_buffer(value@, i as int));
        }
        Text {
            layer: 0,
            id,
            temp: Vec::new(),
            value: buf,
            hicu: 0,
            w,
            h,
            crsh: 0,
            crsv: 0,
            hpos,
            vpos,
            ahpos,
            avpos,
            border,
            padding,
            properties: Properties::new(),
            attributes: Attributes::new(),
            editable: id[2] % 2 == 0,
        }
    }

    /// Whether this field carries the focus.
    pub fn is_focused(&self) -> (r: bool)
        ensures
            r == self.attributes@.contains("focused"@),
    {
        self.attributes.contains("focused")
    }

    /// Whether this field carries the attribute `attr`.
    pub fn has_attribute(&self, attr: &str) -> (r: bool)
        ensures
            r == self.attributes@.contains(attr@),
    {
        self.attributes.contains(attr)
    }

    /// The id of the parent container.
    pub fn parent(&self) -> (r: [u8; 2])
        ensures
            r[0] == self.id[0],
            r[1] == self.id[1],
    {
        [self.id[0], self.id[1]]
    }
}

impl Default for Text {
    /// An empty editable field with id `[0, 0, 0]` at the origin.
    fn default() -> (r: Text)
        ensures
            r.id == [0u8, 0u8, 0u8],
            r.w == 0 && r.h == 0,
            r.hpos == 0 && r.vpos == 0,
            r.ahpos == 0 && r.avpos == 0,
            r.crsh == 0 && r.crsv == 0,
            r.value@.len() == 0,
            r.border == Border::Empty,
            r.padding == Padding::Empty,
            r.editable,
            r.attributes@ == Set::<Seq<char>>::empty(),
    {
        Text {
            layer: 0,
            id: [0, 0, 0],
            temp: Vec::new(),
            value: Vec::new(),
            hicu: 0,
            w: 0,
            h: 0,
            crsh: 0,
            crsv: 0,
            hpos: 0,
            vpos: 0,
            ahpos: 0,
            avpos: 0,
            border: Border::Empty,
            padding: Padding::Empty,
            properties: Properties::new(),
            attributes: Attributes::new(),
            editable: true,
        }
    }
}

} // verus!
