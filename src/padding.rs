use vstd::prelude::*;

verus! {

/// Space left around a widget's content, inside and/or outside its border.
#[derive(Debug, Clone, Copy, PartialEq, Eq, Structural)]
pub enum Padding {
    /// no padding
    Empty,
    /// padding between the content and the border
    Inner { top: u16, bottom: u16, right: u16, left: u16 },
    /// padding around the border
    Outer { top: u16, bottom: u16, right: u16, left: u16 },
    /// padding on both sides of the border
    InOut {
        inner_top: u16,
        inner_bottom: u16,
        inner_right: u16,
        inner_left: u16,
        outer_top: u16,
        outer_bottom: u16,
        outer_right: u16,
        outer_left: u16,
    },
}

impl Padding {
    /// Padding cells above the content, inside the border.
    pub open spec fn spec_inner_top(self) -> int {
        match self {
            Padding::Inner { top, .. } => top as int,
            Padding::InOut { inner_top, .. } => inner_top as int,
            _ => 0,
        }
    }

    pub open spec fn spec_inner_bottom(self) -> int {
        match self {
            Padding::Inner { bottom, .. } => bottom as int,
            Padding::InOut { inner_bottom, .. } => inner_bottom as int,
            _ => 0,
        }
    }

    pub open spec fn spec_inner_left(self) -> int {
        match self {
            Padding::Inner { left, .. } => left as int,
            Padding::InOut { inner_left, .. } => inner_left as int,
            _ => 0,
        }
    }

    pub open spec fn spec_inner_right(self) -> int {
        match self {
            Padding::Inner { right, .. } => right as int,
            Padding::InOut { inner_right, .. } => inner_right as int,
            _ => 0,
        }
    }

    /// Padding cells above the border.
    pub open spec fn spec_outer_top(self) -> int {
        match self {
            Padding::Outer { top, .. } => top as int,
            Padding::InOut { outer_top, .. } => outer_top as int,
            _ => 0,
        }
    }

    pub open spec fn spec_outer_bottom(self) -> int {
        match self {
            Padding::Outer { bottom, .. } => bottom as int,
            Padding::InOut { outer_bottom, .. } => outer_bottom as int,
            _ => 0,
        }
    }

    pub open spec fn spec_outer_left(self) -> int {
        match self {
            Padding::Outer { left, .. } => left as int,
            Padding::InOut { outer_left, .. } => outer_left as int,
            _ => 0,
        }
    }

    pub open spec fn spec_outer_right(self) -> int {
        match self {
            Padding::Outer { right, .. } => right as int,
            Padding::InOut { outer_right, .. } => outer_right as int,
            _ => 0,
        }
    }

    /// Cells that the padding adds left of the content, on both sides of the border.
    pub open spec fn spec_left(self) -> int {
        self.spec_inner_left() + self.spec_outer_left()
    }

    pub open spec fn spec_right(self) -> int {
        self.spec_inner_right() + self.spec_outer_right()
    }

    pub open spec fn spec_top(self) -> int {
        self.spec_inner_top() + self.spec_outer_top()
    }

    pub open spec fn spec_bottom(self) -> int {
        self.spec_inner_bottom() + self.spec_outer_bottom()
    }

    /// Extra width the padding adds to the content.
    pub open spec fn spec_extra_w(self) -> int {
        self.spec_left() + self.spec_right()
    }

    /// Extra height the padding adds to the content.
    pub open spec fn spec_extra_h(self) -> int {
        self.spec_top() + self.spec_bottom()
    }

    /// All eight padding values, in the order inner top, bottom, right,
    /// left, then outer top, bottom, right, left.
    pub open spec fn spec_sides(self) -> [u16; 8] {
        match self {
            Padding::Empty => [0, 0, 0, 0, 0, 0, 0, 0],
            Padding::Inner { top, bottom, right, left } => [top, bottom, right, left, 0, 0, 0, 0],
            Padding::Outer { top, bottom, right, left } => [0, 0, 0, 0, top, bottom, right, left],
            Padding::InOut {
                inner_top,
                inner_bottom,
                inner_right,
                inner_left,
                outer_top,
                outer_bottom,
                outer_right,
                outer_left,
            } => [
                inner_top,
                inner_bottom,
                inner_right,
                inner_left,
                outer_top,
                outer_bottom,
                outer_right,
                outer_left,
            ],
        }
    }

    /// Builds an `InOut` padding from its eight values, in the order of
    /// `spec_sides`.
    pub fn new(sides: [u16; 8]) -> (r: Padding)
        ensures
            r == (Padding::InOut {
                inner_top: sides[0],
                inner_bottom: sides[1],
                inner_right: sides[2],
                inner_left: sides[3],
                outer_top: sides[4],
                outer_bottom: sides[5],
                outer_right: sides[6],
                outer_left: sides[7],
            }),
    {
        Padding::InOut {
            inner_top: sides[0],
            inner_bottom: sides[1],
            inner_right: sides[2],
            inner_left: sides[3],
            outer_top: sides[4],
            outer_bottom: sides[5],
            outer_right: sides[6],
            outer_left: sides[7],
        }
    }

    /// creates a new Padding with no space at all
    pub fn none() -> (r: Padding)
        ensures
            r == Padding::Empty,
    {
        Padding::Empty
    }

    /// creates a new Padding with the Inner variant
    pub fn inner(top: u16, bottom: u16, right: u16, left: u16) -> (r: Padding)
        ensures
            r == (Padding::Inner { top, bottom, right, left }),
    {
        Padding::Inner { top, bottom, right, left }
    }

    /// creates a new Padding with the Outer variant
    pub fn outer(top: u16, bottom: u16, right: u16, left: u16) -> (r: Padding)
        ensures
            r == (Padding::Outer { top, bottom, right, left }),
    {
        Padding::Outer { top, bottom, right, left }
    }

    /// creates a new Padding with the InOut variant
    pub fn in_out(
        inner_top: u16,
        inner_bottom: u16,
        inner_right: u16,
        inner_left: u16,
        outer_top: u16,
        outer_bottom: u16,
        outer_right: u16,
        outer_left: u16,
    ) -> (r: Padding)
        ensures
            r == (Padding::InOut {
                inner_top,
                inner_bottom,
                inner_right,
                inner_left,
                outer_top,
                outer_bottom,
                outer_right,
                outer_left,
            }),
    {
        Padding::InOut {
            inner_top,
            inner_bottom,
            inner_right,
            inner_left,
            outer_top,
            outer_bottom,
            outer_right,
            outer_left,
        }
    }

    /// Replaces the top value of an `Inner` or `Outer` padding; any other
    /// padding is returned unchanged.
    pub fn top(self, top: u16) -> (r: Padding)
        ensures
            r == (match self {
                Padding::Inner { bottom, right, left, .. } => Padding::Inner { top, bottom, right, left },
                Padding::Outer { bottom, right, left, .. } => Padding::Outer { top, bottom, right, left },
                _ => self,
            }),
    {
        match self {
            Padding::Inner { bottom, right, left, .. } => Padding::Inner { top, bottom, right, left },
            Padding::Outer { bottom, right, left, .. } => Padding::Outer { top, bottom, right, left },
            _ => self,
        }
    }

    /// Replaces the bottom value of an `Inner` or `Outer` padding; any other
    /// padding is returned unchanged.
    pub fn bottom(self, bottom: u16) -> (r: Padding)
        ensures
            r == (match self {
                Padding::Inner { top, right, left, .. } => Padding::Inner { top, bottom, right, left },
                Padding::Outer { top, right, left, .. } => Padding::Outer { top, bottom, right, left },
                _ => self,
            }),
    {
        match self {
            Padding::Inner { top, right, left, .. } => Padding::Inner { top, bottom, right, left },
            Padding::Outer { top, right, left, .. } => Padding::Outer { top, bottom, right, left },
            _ => self,
        }
    }

    /// Replaces the right value of an `Inner` or `Outer` padding; any other
    /// padding is returned unchanged.
    pub fn right(self, right: u16) -> (r: Padding)
        ensures
            r == (match self {
                Padding::Inner { top, bottom, left, .. } => Padding::Inner { top, bottom, right, left },
                Padding::Outer { top, bottom, left, .. } => Padding::Outer { top, bottom, right, left },
                _ => self,
            }),
    {
        match self {
            Padding::Inner { top, bottom, left, .. } => Padding::Inner { top, bottom, right, left },
            Padding::Outer { top, bottom, left, .. } => Padding::Outer { top, bottom, right, left },
            _ => self,
        }
    }

    /// Replaces the left value of an `Inner` or `Outer` padding; any other
    /// padding is returned unchanged.
    pub fn left(self, left: u16) -> (r: Padding)
        ensures
            r == (match self {
                Padding::Inner { top, bottom, right, .. } => Padding::Inner { top, bottom, right, left },
                Padding::Outer { top, bottom, right, .. } => Padding::Outer { top, bottom, right, left },
                _ => self,
            }),
    {
        match self {
            Padding::Inner { top, bottom, right, .. } => Padding::Inner { top, bottom, right, left },
            Padding::Outer { top, bottom, right, .. } => Padding::Outer { top, bottom, right, left },
            _ => self,
        }
    }

    /// Replaces the inner top value of an `InOut` padding; any other padding
    /// is returned unchanged.
    pub fn inner_top(self, inner_top: u16) -> (r: Padding)
        ensures
            r == (match self {
                Padding::InOut { inner_bottom, inner_right, inner_left, outer_top, outer_bottom, outer_right, outer_left, .. } => Padding::InOut { inner_top, inner_bottom, inner_right, inner_left, outer_top, outer_bottom, outer_right, outer_left },
                _ => self,
            }),
    {
        match self {
            Padding::InOut { inner_bottom, inner_right, inner_left, outer_top, outer_bottom, outer_right, outer_left, .. } => Padding::InOut { inner_top, inner_bottom, inner_right, inner_left, outer_top, outer_bottom, outer_right, outer_left },
            _ => self,
        }
    }

    /// Replaces the inner bottom value of an `InOut` padding; any other
    /// padding is returned unchanged.
    pub fn inner_bottom(self, inner_bottom: u16) -> (r: Padding)
        ensures
            r == (match self {
                Padding::InOut { inner_top, inner_right, inner_left, outer_top, outer_bottom, outer_right, outer_left, .. } => Padding::InOut { inner_top, inner_bottom, inner_right, inner_left, outer_top, outer_bottom, outer_right, outer_left },
                _ => self,
            }),
    {
        match self {
            Padding::InOut { inner_top, inner_right, inner_left, outer_top, outer_bottom, outer_right, outer_left, .. } => Padding::InOut { inner_top, inner_bottom, inner_right, inner_left, outer_top, outer_bottom, outer_right, outer_left },
            _ => self,
        }
    }

    /// Replaces the inner right value of an `InOut` padding; any other
    /// padding is returned unchanged.
    pub fn inner_right(self, inner_right: u16) -> (r: Padding)
        ensures
            r == (match self {
                Padding::InOut { inner_top, inner_bottom, inner_left, outer_top, outer_bottom, outer_right, outer_left, .. } => Padding::InOut { inner_top, inner_bottom, inner_right, inner_left, outer_top, outer_bottom, outer_right, outer_left },
                _ => self,
            }),
    {
        match self {
            Padding::InOut { inner_top, inner_bottom, inner_left, outer_top, outer_bottom, outer_right, outer_left, .. } => Padding::InOut { inner_top, inner_bottom, inner_right, inner_left, outer_top, outer_bottom, outer_right, outer_left },
            _ => self,
        }
    }

    /// Replaces the inner left value of an `InOut` padding; any other
    /// padding is returned unchanged.
    pub fn inner_left(self, inner_left: u16) -> (r: Padding)
        ensures
            r == (match self {
                Padding::InOut { inner_top, inner_bottom, inner_right, outer_top, outer_bottom, outer_right, outer_left, .. } => Padding::InOut { inner_top, inner_bottom, inner_right, inner_left, outer_top, outer_bottom, outer_right, outer_left },
                _ => self,
            }),
    {
        match self {
            Padding::InOut { inner_top, inner_bottom, inner_right, outer_top, outer_bottom, outer_right, outer_left, .. } => Padding::InOut { inner_top, inner_bottom, inner_right, inner_left, outer_top, outer_bottom, outer_right, outer_left },
            _ => self,
        }
    }

    /// All eight padding values, in the order of `spec_sides`.
    pub fn sides(&self) -> (r: [u16; 8])
        ensures
            r == self.spec_sides(),
    {
        match *self {
            Padding::Empty => [0, 0, 0, 0, 0, 0, 0, 0],
            Padding::Inner { top, bottom, right, left } => [top, bottom, right, left, 0, 0, 0, 0],
            Padding::Outer { top, bottom, right, left } => [0, 0, 0, 0, top, bottom, right, left],
            Padding::InOut {
                inner_top,
                inner_bottom,
                inner_right,
                inner_left,
                outer_top,
                outer_bottom,
                outer_right,
                outer_left,
            } => [
                inner_top,
                inner_bottom,
                inner_right,
                inner_left,
                outer_top,
                outer_bottom,
                outer_right,
                outer_left,
            ],
        }
    }

    /// Whether the padding leaves no space at all.
    pub fn is_null(&self) -> (r: bool)
        ensures
            r == (forall|i: int| 0 <= i < 8 ==> #[trigger] self.spec_sides()[i] == 0),
    {
        let s = self.sides();
        let mut i: usize = 0;
        while i < 8
            invariant
                0 <= i <= 8,
                s == self.spec_sides(),
                forall|j: int| 0 <= j < i ==> #[trigger] s[j] == 0,
            decreases 8 - i,
        {
            if s[i] != 0 {
                return false;
            }
            i += 1;
        }
        true
    }
}

impl From<()> for Padding {
    /// No padding.
    fn from(value: ()) -> (r: Padding) {
        Padding::Empty
    }
}

impl vstd::std_specs::convert::FromSpecImpl<()> for Padding {
    open spec fn obeys_from_spec() -> bool {
        true
    }

    open spec fn from_spec(value: ()) -> Padding {
        Padding::Empty
    }
}

impl From<(u16, u16, u16, u16)> for Padding {
    /// Inner padding from top, bottom, right and left.
    fn from(value: (u16, u16, u16, u16)) -> (r: Padding) {
        Padding::Inner { top: value.0, bottom: value.1, right: value.2, left: value.3 }
    }
}

impl vstd::std_specs::convert::FromSpecImpl<(u16, u16, u16, u16)> for Padding {
    open spec fn obeys_from_spec() -> bool {
        true
    }

    open spec fn from_spec(value: (u16, u16, u16, u16)) -> Padding {
        Padding::Inner { top: value.0, bottom: value.1, right: value.2, left: value.3 }
    }
}

impl From<[u16; 4]> for Padding {
    /// Outer padding from top, bottom, right and left.
    fn from(value: [u16; 4]) -> (r: Padding) {
        Padding::Outer { top: value[0], bottom: value[1], right: value[2], left: value[3] }
    }
}

impl vstd::std_specs::convert::FromSpecImpl<[u16; 4]> for Padding {
    open spec fn obeys_from_spec() -> bool {
        true
    }

    open spec fn from_spec(value: [u16; 4]) -> Padding {
        Padding::Outer { top: value[0], bottom: value[1], right: value[2], left: value[3] }
    }
}

impl From<[u16; 8]> for Padding {
    /// Inner and outer padding, in the order of `spec_sides`.
    fn from(value: [u16; 8]) -> (r: Padding) {
        Padding::new(value)
    }
}

impl vstd::std_specs::convert::FromSpecImpl<[u16; 8]> for Padding {
    open spec fn obeys_from_spec() -> bool {
        true
    }

    open spec fn from_spec(value: [u16; 8]) -> Padding {
        Padding::InOut {
            inner_top: value[0],
            inner_bottom: value[1],
            inner_right: value[2],
            inner_left: value[3],
            outer_top: value[4],
            outer_bottom: value[5],
            outer_right: value[6],
            outer_left: value[7],
        }
    }
}

impl Default for Padding {
    fn default() -> (r: Padding)
        ensures
            r == Padding::Empty,
    {
        Padding::Empty
    }
}

} // verus!
