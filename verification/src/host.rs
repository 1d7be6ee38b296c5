//! Messages and enumerations shared with the host windowing system.
//!
//! The chrome never resizes, moves or closes the window itself: it only
//! detects intent and sends one of these fire-and-forget commands to the
//! host, which owns the actual window geometry.

use vstd::prelude::*;

verus! {

/// Which edge or corner of the window a resize gesture targets.
#[derive(Clone, Copy, PartialEq, Eq, Structural, Debug)]
pub enum Direction {
    North,
    South,
    East,
    West,
    NorthEast,
    NorthWest,
    SouthEast,
    SouthWest,
}

/// The mouse cursor the chrome asks the host to display while the pointer
/// hovers a resize zone.
#[derive(Clone, Copy, PartialEq, Eq, Structural, Debug)]
pub enum CursorIcon {
    /// North or south edge.
    ResizeVertical,
    /// East or west edge.
    ResizeHorizontal,
    /// North-west or south-east corner.
    ResizeNwSe,
    /// North-east or south-west corner.
    ResizeNeSw,
}

/// A one-way request to the host windowing system.  The host may ignore or
/// delay it; the chrome keeps no state about its outcome.
#[derive(Clone, Copy, PartialEq, Eq, Structural, Debug)]
pub enum HostCommand {
    BeginResize(Direction),
    BeginDrag,
    Close,
    SetMaximized(bool),
    SetMinimized(bool),
}

/// The cursor shown for each resize direction.
pub open spec fn spec_cursor_for(d: Direction) -> CursorIcon {
    match d {
        Direction::North | Direction::South => CursorIcon::ResizeVertical,
        Direction::East | Direction::West => CursorIcon::ResizeHorizontal,
        Direction::NorthWest | Direction::SouthEast => CursorIcon::ResizeNwSe,
        Direction::NorthEast | Direction::SouthWest => CursorIcon::ResizeNeSw,
    }
}

pub fn cursor_for(d: Direction) -> (c: CursorIcon)
    ensures
        c == spec_cursor_for(d),
{
    match d {
        Direction::North | Direction::South => CursorIcon::ResizeVertical,
        Direction::East | Direction::West => CursorIcon::ResizeHorizontal,
        Direction::NorthWest | Direction::SouthEast => CursorIcon::ResizeNwSe,
        Direction::NorthEast | Direction::SouthWest => CursorIcon::ResizeNeSw,
    }
}

} // verus!
