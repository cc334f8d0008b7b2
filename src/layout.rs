use vstd::prelude::*;

verus! {

/// How a parent places its direct children.
#[derive(Debug, Clone, Copy, PartialEq, Eq, Structural)]
pub enum Layout {
    /// children keep the geometry they were inserted with
    Canvas,
    /// children are placed in a row or column (declared only)
    Flex,
    /// children are placed on a grid (declared only)
    Grid,
}

impl Layout {
    pub fn is_canvas(&self) -> (r: bool)
        ensures
            r == (*self is Canvas),
    {
        matches!(self, Layout::Canvas)
    }

    pub fn is_flex(&self) -> (r: bool)
        ensures
            r == (*self is Flex),
    {
        matches!(self, Layout::Flex)
    }

    pub fn is_grid(&self) -> (r: bool)
        ensures
            r == (*self is Grid),
    {
        matches!(self, Layout::Grid)
    }

    /// The layout named by its initial: `'c'`, `'f'` or `'g'`.
    pub fn from_char(c: char) -> (r: Option<Layout>)
        ensures
            r == (if c == 'c' {
                Some(Layout::Canvas)
            } else if c == 'f' {
                Some(Layout::Flex)
            } else if c == 'g' {
                Some(Layout::Grid)
            } else {
                None::<Layout>
            }),
    {
        if c == 'c' {
            Some(Layout::Canvas)
        } else if c == 'f' {
            Some(Layout::Flex)
        } else if c == 'g' {
            Some(Layout::Grid)
        } else {
            None
        }
    }
}

impl Default for Layout {
    fn default() -> (r: Layout)
        ensures
            r == Layout::Canvas,
    {
        Layout::Canvas
    }
}

/// Layout queries of a parent component.
pub trait LayoutRules {
    spec fn spec_layout(&self) -> Layout;

    fn is_canvas(&self) -> (r: bool)
        ensures
            r == (self.spec_layout() is Canvas),
    ;

    fn is_flex(&self) -> (r: bool)
        ensures
            r == (self.spec_layout() is Flex),
    ;

    fn is_grid(&self) -> (r: bool)
        ensures
            r == (self.spec_layout() is Grid),
    ;
}

} // verus!
