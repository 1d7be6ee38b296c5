//! Verified logic for custom window chrome: resize hit-zone geometry,
//! pointer-driven resize and drag interaction, and title-bar button
//! semantics, all on integer UI coordinates.
//!
//! The host GUI framework does the painting and supplies raw pointer
//! facts each frame; this crate derives every decision (which zone is
//! targeted, which cursor to show, which command to send to the host
//! window manager) as a pure function of those facts.

pub mod button;
pub mod geometry;
pub mod host;
pub mod resize;
pub mod title_bar;
pub mod window;

use vstd::prelude::*;

verus! {

/// Largest coordinate magnitude the chrome works with.  UI coordinates are
/// tiny in practice; bounding them keeps all geometry arithmetic well inside
/// `i32` range.
pub const COORD_LIMIT: i32 = 1_000_000;

} // verus!
