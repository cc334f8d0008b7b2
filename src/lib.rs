//! Geometry and identity engine of a terminal component toolkit.
//!
//! Windows (`Term`) own containers, containers own text fields. Every
//! insertion resolves the new widget's geometry, checks it against its parent
//! and its siblings, and either inserts it whole or leaves the tree untouched.
pub mod attributes;
pub mod border;
pub mod builders;
pub mod color;
pub mod colorscheme;
pub mod commissioner;
pub mod container;
pub mod coordinates;
pub mod errors;
pub mod geometry;
pub mod ids;
pub mod laws;
pub mod layout;
pub mod padding;
pub mod property;
pub mod style;
pub mod styled;
pub mod term;
pub mod text;
pub mod tree;

pub use attributes::Attributes;
pub use border::Border;
pub use builders::{BuilderError, BuilderTreeError, ContainerBuilder, TermBuilder, TextBuilder};
pub use color::Color;
pub use colorscheme::{color_scheme, ComponentColors, Pattern, Patterns};
pub use commissioner::Commissioner;
pub use container::{Container, Position, ScrollableComponent};
pub use coordinates::ComponentCoordinates;
pub use errors::{IdError, InitError, SpaceError, TreeError, ValidationError};
pub use geometry::{Area, Pos};
pub use ids::{CompId, IdKind};
pub use layout::{Layout, LayoutRules};
pub use padding::Padding;
pub use property::{Properties, Property};
pub use style::Style;
pub use term::Term;
pub use text::Text;
pub use tree::{ComponentTree, TermSource};
