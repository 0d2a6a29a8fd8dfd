//! Core logic of an interactive tile-grid editor: a fixed-size square grid
//! in which the pointer highlights the cell under it and illuminates its
//! orthogonal neighbors, a left click stamps the currently selected tile
//! type onto the hovered cell, a right click cycles the hovered cell's
//! orientation through four states, and the space key cycles which tile
//! type will be placed next.
//!
//! The crate is organised along the per-frame update cycle:
//! [`grid`] resolves a world-space pointer position to a grid coordinate,
//! [`hover`] recomputes the hover and illumination flags from that
//! coordinate, [`translate`] applies the frame's discrete input events to
//! the tile state, and [`session`] drives one whole frame in that order.
//! The rendering host around this crate feeds events in and reads the
//! per-cell state back out each frame.

pub mod events;
pub mod grid;
pub mod hover;
pub mod session;
pub mod store;
pub mod translate;
