//! A retained-mode box layout engine.
//!
//! A tree of styled elements is laid out in one top-down pass: every element
//! gets a border box and, inside it, a content box in which its children are
//! packed from left to right. All geometry is in whole layout units, and
//! colours are in levels from 0 to 255.
//!
//! A session starts with a [`Context`], which holds the viewport and the root
//! of the tree. Elements are made with [`Element::new`] and attached with
//! [`Element::add_child`]; [`Context::reflow`] then lays out the tree, and
//! [`render`] lists what to paint.

pub mod context;
pub mod element;
pub mod geometry;
pub mod laws;
pub mod reflow;
pub mod render;
pub mod style;
pub mod util;
pub mod validate;

pub use context::Context;
pub use element::{ComputedStyle, Element};
pub use geometry::{Direction, Rect, Side};
pub use render::{render, FilledRect};
pub use style::{Color, DeclaredSize, DeclaredStyle, SidesArray};
pub use util::UnsafePtr;
pub use validate::ReflowError;
