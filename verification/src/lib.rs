//! Decisions behind a window that hides at the edge of the screen.
//!
//! A window dragged close to the left, right or top edge of the work area is
//! slid out of it until only a narrow strip peeks in. Touching that edge with
//! the cursor slides the window back; leaving the window alone for a moment
//! hides it again. The crate holds what is computed and decided on the way:
//! the geometry, the phases, and the plan of each slide. It performs no I/O:
//! positions, clock readings and cursor coordinates come in as plain values,
//! and what is to be done goes out as plain values.

pub mod animation;
pub mod config;
pub mod cursor;
pub mod geometry;
pub mod laws;
pub mod manager;
pub mod placement;
