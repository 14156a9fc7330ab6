//! The editing state behind a glyph editor's view: the points of a glyph and
//! where they lie, what is selected, the reversible changes, and the view's
//! properties with its status bar messages.
//!
//! Coordinates, lengths and angles are held as the bit patterns of
//! double-precision numbers (`Real`). The crate moves them around and never
//! computes with them: what a transformation makes of a point comes in from
//! outside.

pub mod action;
pub mod change_laws;
pub mod events;
pub mod glyphs;
pub mod guidelines;
pub mod history;
pub mod laws;
pub mod message_laws;
pub mod point_laws;
pub mod property;
pub mod property_laws;
pub mod range_query;
pub mod selection;
pub mod state;
pub mod toolbox;
pub mod view;
pub mod view_laws;
