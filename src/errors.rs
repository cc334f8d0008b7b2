use vstd::prelude::*;

use crate::term::Term;

verus! {

/// Why a window could not join a tree.
#[derive(Debug)]
pub enum InitError {
    /// the builder's id is already used in the tree
    TermNotMade,
    /// the window was refused; it is handed back
    InvalidTerm { term: Term },
}

/// Id errors.
#[derive(Debug, Clone, Copy, PartialEq, Eq, Structural)]
pub enum IdError {
    /// the id is already used by a sibling
    IdAlreadyTaken,
    /// the id's kind does not match the operation (an odd id for an
    /// editable text field, an even one for a read-only field)
    KindMismatch,
}

/// Space errors.
#[derive(Debug, Clone, Copy, PartialEq, Eq, Structural)]
pub enum SpaceError {
    /// the decorated size exceeds the parent's
    AreaOutOfBounds,
    /// the position places the decorated box outside the parent
    OriginOutOfBounds,
}

/// The detailed outcome of a bounds check.
#[derive(Debug, Clone, Copy, PartialEq, Eq, Structural)]
pub enum ValidationError {
    /// the id is already used by a sibling
    IdInUse,
    /// the box is wider than the parent
    WidthOverflow,
    /// the box is higher than the parent
    HeightOverflow,
    /// the box is both wider and higher than the parent
    WHOverflow,
    /// the box crosses the parent's right edge
    XOutofBounds,
    /// the box crosses the parent's bottom edge
    YOutOfBounds,
}

/// Errors of the tree's operations.
#[derive(Debug)]
pub enum TreeError {
    /// no component carries the focus
    NoFocusedComp,
    /// no window carries the focus
    NoFocusedTerm,
    /// the focused window has no focused container
    NoFocusedContainer { tid: u8 },
    /// the focused container has no focused text field
    NoFocusedText { cid: [u8; 2] },
    /// a window could not join the tree
    InitError(InitError),
    /// an id was refused
    IdError(IdError),
    /// a geometry was refused
    SpaceError(SpaceError),
    /// the addressed component does not exist
    BadID,
    /// an initial value does not fit the text field's capacity
    BadValue,
    /// the parent of the component does not exist
    ParentNotFound,
    /// the component overlaps a sibling, or its border does not fit its
    /// padding
    BoundsNotRespected,
}

} // verus!
