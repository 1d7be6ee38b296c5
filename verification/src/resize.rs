//! Resize hit-zone geometry and the per-frame resize interaction.
//!
//! Eight zones line the inside of the outer window rectangle: a square of
//! side `t` in each corner and an edge strip of thickness `t` between the
//! corner squares on each side.  When the outer rectangle is at least
//! `2t` wide and tall, the zones are pairwise disjoint and, together with
//! the interior shrunk by `t`, tile the outer rectangle exactly.  When it
//! is smaller, edge strips clamp to empty rectangles instead of turning
//! inside out.

use vstd::prelude::*;
use crate::geometry::{coord_max, Pos, Rect};
use crate::host::{spec_cursor_for, cursor_for, CursorIcon, Direction, HostCommand};
use crate::COORD_LIMIT;

verus! {

/// Thickness, in UI units, of the resize border along each window edge.
pub const RESIZE_BORDER_THICKNESS: i32 = 6;

/// The eight resize hit-zones of one window rectangle.
#[derive(Clone, Copy, PartialEq, Eq, Structural, Debug)]
pub struct ResizeZones {
    pub nw: Rect,
    pub ne: Rect,
    pub sw: Rect,
    pub se: Rect,
    pub n: Rect,
    pub s: Rect,
    pub w: Rect,
    pub e: Rect,
}

/// Raw pointer facts for one UI frame, as reported by the host.
#[derive(Clone, Copy, PartialEq, Eq, Structural, Debug)]
pub struct PointerFrame {
    /// Where the pointer hovers, if it is over the window at all.
    pub pos: Option<Pos>,
    /// Whether the primary button is down this frame.
    pub primary_down: bool,
}

/// What the resize layer produced for one frame.
#[derive(Clone, Copy, PartialEq, Eq, Structural, Debug)]
pub struct ResizeFrameResult {
    /// Cursor override to apply this frame, if the pointer hovers a zone.
    pub cursor: Option<CursorIcon>,
    /// Command to send to the host, if a drag began inside a zone.
    pub command: Option<HostCommand>,
}

impl ResizeZones {
    /// The zone rectangle for a given direction.
    pub open spec fn spec_zone(self, d: Direction) -> Rect {
        match d {
            Direction::NorthWest => self.nw,
            Direction::NorthEast => self.ne,
            Direction::SouthWest => self.sw,
            Direction::SouthEast => self.se,
            Direction::North => self.n,
            Direction::South => self.s,
            Direction::West => self.w,
            Direction::East => self.e,
        }
    }
}

/// `r` spans exactly `[x1, x2) x [y1, y2)`.
pub open spec fn is_rect(r: Rect, x1: int, y1: int, x2: int, y2: int) -> bool {
    r.min.x == x1 && r.min.y == y1 && r.max.x == x2 && r.max.y == y2
}

/// The zone layout that `resize_zones` computes for `o` and thickness `t`:
/// corner squares of side `t` anchored at the four corners, and edge strips
/// shortened by `t` at both ends, clamped to empty when `o` is too small.
pub open spec fn zones_of(o: Rect, t: int, z: ResizeZones) -> bool {
    &&& is_rect(z.nw, o.min.x as int, o.min.y as int, o.min.x + t, o.min.y + t)
    &&& is_rect(z.ne, o.max.x - t, o.min.y as int, o.max.x as int, o.min.y + t)
    &&& is_rect(z.sw, o.min.x as int, o.max.y - t, o.min.x + t, o.max.y as int)
    &&& is_rect(z.se, o.max.x - t, o.max.y - t, o.max.x as int, o.max.y as int)
    &&& is_rect(z.n, o.min.x + t, o.min.y as int, vstd::math::max(o.min.x + t, o.max.x - t), o.min.y + t)
    &&& is_rect(z.s, o.min.x + t, o.max.y - t, vstd::math::max(o.min.x + t, o.max.x - t), o.max.y as int)
    &&& is_rect(z.w, o.min.x as int, o.min.y + t, o.min.x + t, vstd::math::max(o.min.y + t, o.max.y - t))
    &&& is_rect(z.e, o.max.x - t, o.min.y + t, o.max.x as int, vstd::math::max(o.min.y + t, o.max.y - t))
}

/// The interior of `o` shrunk by `t` on all sides contains `p`.
pub open spec fn in_interior(o: Rect, t: int, p: Pos) -> bool {
    &&& o.min.x + t <= p.x
    &&& p.x < o.max.x - t
    &&& o.min.y + t <= p.y
    &&& p.y < o.max.y - t
}

/// Compute the eight resize zones of `outer` for border thickness `t`.
///
/// Every returned rectangle is well formed (`min <= max` on both axes),
/// whatever the size of `outer`: degenerate edge strips clamp to empty.
pub fn resize_zones(outer: Rect, t: i32) -> (z: ResizeZones)
    requires
        outer.well_formed(),
        outer.bounded(),
        0 <= t <= COORD_LIMIT,
    ensures
        zones_of(outer, t as int, z),
        forall|d: Direction| (#[trigger] z.spec_zone(d)).well_formed(),
{
    let x1 = outer.min.x;
    let y1 = outer.min.y;
    let x2 = outer.max.x;
    let y2 = outer.max.y;
    let ex2 = coord_max(x1 + t, x2 - t);
    let ey2 = coord_max(y1 + t, y2 - t);
    let z = ResizeZones {
        nw: Rect { min: Pos { x: x1, y: y1 }, max: Pos { x: x1 + t, y: y1 + t } },
        ne: Rect { min: Pos { x: x2 - t, y: y1 }, max: Pos { x: x2, y: y1 + t } },
        sw: Rect { min: Pos { x: x1, y: y2 - t }, max: Pos { x: x1 + t, y: y2 } },
        se: Rect { min: Pos { x: x2 - t, y: y2 - t }, max: Pos { x: x2, y: y2 } },
        n: Rect { min: Pos { x: x1 + t, y: y1 }, max: Pos { x: ex2, y: y1 + t } },
        s: Rect { min: Pos { x: x1 + t, y: y2 - t }, max: Pos { x: ex2, y: y2 } },
        w: Rect { min: Pos { x: x1, y: y1 + t }, max: Pos { x: x1 + t, y: ey2 } },
        e: Rect { min: Pos { x: x2 - t, y: y1 + t }, max: Pos { x: x2, y: ey2 } },
    };
    assert forall|d: Direction| (#[trigger] z.spec_zone(d)).well_formed() by {
        match d {
            Direction::NorthWest => assert(z.nw.well_formed()),
            Direction::NorthEast => assert(z.ne.well_formed()),
            Direction::SouthWest => assert(z.sw.well_formed()),
            Direction::SouthEast => assert(z.se.well_formed()),
            Direction::North => assert(z.n.well_formed()),
            Direction::South => assert(z.s.well_formed()),
            Direction::West => assert(z.w.well_formed()),
            Direction::East => assert(z.e.well_formed()),
        }
    }
    z
}

/// The three hit-zones along the top of the window (north-west corner,
/// north edge, north-east corner), with the default border thickness.
/// Callers use them to suppress title-bar drag initiation near the top
/// corners, where the host may own snap gestures.
pub fn top_resize_hot_zones(outer: Rect) -> (r: Vec<Rect>)
    requires
        outer.well_formed(),
        outer.bounded(),
    ensures
        r@.len() == 3,
        is_rect(r@[0], outer.min.x as int, outer.min.y as int,
            outer.min.x + RESIZE_BORDER_THICKNESS, outer.min.y + RESIZE_BORDER_THICKNESS),
        is_rect(r@[1], outer.min.x + RESIZE_BORDER_THICKNESS, outer.min.y as int,
            vstd::math::max(outer.min.x + RESIZE_BORDER_THICKNESS,
                outer.max.x - RESIZE_BORDER_THICKNESS),
            outer.min.y + RESIZE_BORDER_THICKNESS),
        is_rect(r@[2], outer.max.x - RESIZE_BORDER_THICKNESS, outer.min.y as int,
            outer.max.x as int, outer.min.y + RESIZE_BORDER_THICKNESS),
        forall|i: int| 0 <= i < 3 ==> (#[trigger] r@[i]).well_formed(),
{
    let z = resize_zones(outer, RESIZE_BORDER_THICKNESS);
    let mut r: Vec<Rect> = Vec::new();
    r.push(z.nw);
    r.push(z.n);
    r.push(z.ne);
    assert(z.spec_zone(Direction::NorthWest).well_formed());
    assert(z.spec_zone(Direction::North).well_formed());
    assert(z.spec_zone(Direction::NorthEast).well_formed());
    r
}

/// The pointer is on the window and inside one of the rectangles.
pub open spec fn spec_pointer_in_any(pointer: Option<Pos>, rects: Seq<Rect>) -> bool {
    match pointer {
        Some(p) => exists|i: int| 0 <= i < rects.len() && (#[trigger] rects[i]).spec_contains(p),
        None => false,
    }
}

/// Whether the pointer (if on the window at all) lies inside any of the
/// given rectangles.
pub fn pointer_in_any(pointer: Option<Pos>, rects: &Vec<Rect>) -> (r: bool)
    ensures
        r == spec_pointer_in_any(pointer, rects@),
{
    match pointer {
        None => false,
        Some(p) => {
            let mut i: usize = 0;
            while i < rects.len()
                invariant
                    pointer == Some(p),
                    0 <= i <= rects@.len(),
                    forall|j: int| 0 <= j < i ==> !(#[trigger] rects@[j]).spec_contains(p),
                decreases rects@.len() - i,
            {
                if rects[i].contains(p) {
                    assert(rects@[i as int].spec_contains(p));
                    return true;
                }
                i = i + 1;
            }
            false
        },
    }
}

/// The zone the pointer position selects, testing the zones in the fixed
/// order: corners north-west, north-east, south-west, south-east, then
/// edges north, south, west, east.  When the zones come from
/// `resize_zones` on a large-enough rectangle they are pairwise disjoint,
/// so the order never matters; it is fixed only so behaviour at a numeric
/// boundary would be repeatable.
pub open spec fn spec_hit_zone(z: ResizeZones, p: Pos) -> Option<Direction> {
    if z.nw.spec_contains(p) {
        Some(Direction::NorthWest)
    } else if z.ne.spec_contains(p) {
        Some(Direction::NorthEast)
    } else if z.sw.spec_contains(p) {
        Some(Direction::SouthWest)
    } else if z.se.spec_contains(p) {
        Some(Direction::SouthEast)
    } else if z.n.spec_contains(p) {
        Some(Direction::North)
    } else if z.s.spec_contains(p) {
        Some(Direction::South)
    } else if z.w.spec_contains(p) {
        Some(Direction::West)
    } else if z.e.spec_contains(p) {
        Some(Direction::East)
    } else {
        None
    }
}

/// Which zone, if any, contains the pointer position `p`.
pub fn hit_zone(z: &ResizeZones, p: Pos) -> (r: Option<Direction>)
    ensures
        r == spec_hit_zone(*z, p),
        r matches Some(d) ==> z.spec_zone(d).spec_contains(p),
        r is None <==> forall|d: Direction| !(#[trigger] z.spec_zone(d)).spec_contains(p),
{
    let r = if z.nw.contains(p) {
        Some(Direction::NorthWest)
    } else if z.ne.contains(p) {
        Some(Direction::NorthEast)
    } else if z.sw.contains(p) {
        Some(Direction::SouthWest)
    } else if z.se.contains(p) {
        Some(Direction::SouthEast)
    } else if z.n.contains(p) {
        Some(Direction::North)
    } else if z.s.contains(p) {
        Some(Direction::South)
    } else if z.w.contains(p) {
        Some(Direction::West)
    } else if z.e.contains(p) {
        Some(Direction::East)
    } else {
        None
    };
    proof {
        if r is None {
            assert forall|d: Direction| !(#[trigger] z.spec_zone(d)).spec_contains(p) by {
                match d {
                    Direction::NorthWest => assert(!z.nw.spec_contains(p)),
                    Direction::NorthEast => assert(!z.ne.spec_contains(p)),
                    Direction::SouthWest => assert(!z.sw.spec_contains(p)),
                    Direction::SouthEast => assert(!z.se.spec_contains(p)),
                    Direction::North => assert(!z.n.spec_contains(p)),
                    Direction::South => assert(!z.s.spec_contains(p)),
                    Direction::West => assert(!z.w.spec_contains(p)),
                    Direction::East => assert(!z.e.spec_contains(p)),
                }
            }
        } else {
            let d = r->0;
            assert(z.spec_zone(d).spec_contains(p));
        }
    }
    r
}

/// A primary-button drag starts this frame: the button is down now and was
/// not down on the previous frame.
pub open spec fn spec_drag_started(prev_down: bool, f: PointerFrame) -> bool {
    f.primary_down && !prev_down
}

/// The cursor override for this frame: the cursor of the hovered zone, or
/// none when the pointer is off-window or outside every zone.
pub open spec fn spec_resize_cursor(z: ResizeZones, f: PointerFrame) -> Option<CursorIcon> {
    match f.pos {
        Some(p) => match spec_hit_zone(z, p) {
            Some(d) => Some(spec_cursor_for(d)),
            None => None,
        },
        None => None,
    }
}

/// The command for this frame: `BeginResize` of the hovered zone's
/// direction exactly when a primary-button drag starts inside a zone.
pub open spec fn spec_resize_command(z: ResizeZones, prev_down: bool, f: PointerFrame)
    -> Option<HostCommand> {
    if spec_drag_started(prev_down, f) {
        match f.pos {
            Some(p) => match spec_hit_zone(z, p) {
                Some(d) => Some(HostCommand::BeginResize(d)),
                None => None,
            },
            None => None,
        }
    } else {
        None
    }
}

/// One frame of the resize interaction.
///
/// `prev_down` is whether the primary button was down on the previous
/// frame; the drag-start transition is derived from it, so a continuous
/// drag emits its command only on its first frame.
pub fn resize_frame(z: &ResizeZones, prev_down: bool, f: PointerFrame) -> (r: ResizeFrameResult)
    ensures
        r.cursor == spec_resize_cursor(*z, f),
        r.command == spec_resize_command(*z, prev_down, f),
{
    let hit = match f.pos {
        Some(p) => hit_zone(z, p),
        None => None,
    };
    let cursor = match hit {
        Some(d) => Some(cursor_for(d)),
        None => None,
    };
    let command = if f.primary_down && !prev_down {
        match hit {
            Some(d) => Some(HostCommand::BeginResize(d)),
            None => None,
        }
    } else {
        None
    };
    ResizeFrameResult { cursor, command }
}

/// When the outer rectangle is at least `2t` wide and tall, the eight
/// zones are pairwise disjoint, none of them meets the interior shrunk by
/// `t`, and together with that interior they tile the outer rectangle
/// exactly: a point lies in the outer rectangle if and only if it lies in
/// the interior or in some zone.
pub proof fn lemma_zones_tile(o: Rect, t: int, z: ResizeZones, p: Pos)
    requires
        o.well_formed(),
        zones_of(o, t, z),
        0 <= t,
        o.spec_width() >= 2 * t,
        o.spec_height() >= 2 * t,
    ensures
        o.spec_contains(p) <==> (in_interior(o, t, p)
            || exists|d: Direction| (#[trigger] z.spec_zone(d)).spec_contains(p)),
        forall|d1: Direction, d2: Direction|
            #[trigger] z.spec_zone(d1).spec_contains(p)
            && #[trigger] z.spec_zone(d2).spec_contains(p) ==> d1 == d2,
        forall|d: Direction| #[trigger] z.spec_zone(d).spec_contains(p)
            ==> !in_interior(o, t, p),
{
    if o.spec_contains(p) && !in_interior(o, t, p) {
        if p.x < o.min.x + t {
            if p.y < o.min.y + t {
                assert(z.spec_zone(Direction::NorthWest).spec_contains(p));
            } else if p.y >= o.max.y - t {
                assert(z.spec_zone(Direction::SouthWest).spec_contains(p));
            } else {
                assert(z.spec_zone(Direction::West).spec_contains(p));
            }
        } else if p.x >= o.max.x - t {
            if p.y < o.min.y + t {
                assert(z.spec_zone(Direction::NorthEast).spec_contains(p));
            } else if p.y >= o.max.y - t {
                assert(z.spec_zone(Direction::SouthEast).spec_contains(p));
            } else {
                assert(z.spec_zone(Direction::East).spec_contains(p));
            }
        } else {
            if p.y < o.min.y + t {
                assert(z.spec_zone(Direction::North).spec_contains(p));
            } else {
                assert(z.spec_zone(Direction::South).spec_contains(p));
            }
        }
    }
}

/// A pointer position inside one of the zones of a large-enough rectangle
/// selects exactly that zone's direction, whatever order the zones are
/// tested in.
pub proof fn lemma_hit_zone_unique(o: Rect, t: int, z: ResizeZones, p: Pos, d: Direction)
    requires
        o.well_formed(),
        zones_of(o, t, z),
        0 <= t,
        o.spec_width() >= 2 * t,
        o.spec_height() >= 2 * t,
        z.spec_zone(d).spec_contains(p),
    ensures
        spec_hit_zone(z, p) == Some(d),
{
    lemma_zones_tile(o, t, z, p);
    assert forall|d2: Direction| d2 != d implies !(#[trigger] z.spec_zone(d2)).spec_contains(p) by {
        assert(z.spec_zone(d).spec_contains(p));
    }
    assert(z.nw == z.spec_zone(Direction::NorthWest));
    assert(z.ne == z.spec_zone(Direction::NorthEast));
    assert(z.sw == z.spec_zone(Direction::SouthWest));
    assert(z.se == z.spec_zone(Direction::SouthEast));
    assert(z.n == z.spec_zone(Direction::North));
    assert(z.s == z.spec_zone(Direction::South));
    assert(z.w == z.spec_zone(Direction::West));
    assert(z.e == z.spec_zone(Direction::East));
}

/// The primary-button state the frame before frame `i`, for a run of
/// frames whose first frame follows a frame with state `init_down`.
pub open spec fn prev_down_at(init_down: bool, frames: Seq<PointerFrame>, i: int) -> bool
    recommends
        0 <= i < frames.len(),
{
    if i == 0 {
        init_down
    } else {
        frames[i - 1].primary_down
    }
}

/// A single continuous primary-button drag gesture emits at most one
/// `BeginResize`, however many frames it spans.  `frames` are the frames
/// of the gesture: the button is down on every one of them and was up just
/// before the first.  Only the first frame can emit a command; it emits
/// `BeginResize(d)` exactly when the pointer starts the gesture inside the
/// zone of direction `d`, and nothing when it starts outside every zone or
/// off-window.
pub proof fn lemma_drag_gesture_emits_once(z: ResizeZones, frames: Seq<PointerFrame>)
    requires
        frames.len() > 0,
        forall|i: int| 0 <= i < frames.len() ==> (#[trigger] frames[i]).primary_down,
    ensures
        forall|i: int| 0 < i < frames.len()
            ==> (#[trigger] spec_resize_command(z, prev_down_at(false, frames, i), frames[i]))
                is None,
        frames[0].pos matches Some(p)
            ==> spec_hit_zone(z, p) matches Some(d)
            ==> spec_resize_command(z, prev_down_at(false, frames, 0), frames[0])
                == Some(HostCommand::BeginResize(d)),
        frames[0].pos matches Some(p)
            ==> spec_hit_zone(z, p) is None
            ==> spec_resize_command(z, prev_down_at(false, frames, 0), frames[0]) is None,
        frames[0].pos is None
            ==> spec_resize_command(z, prev_down_at(false, frames, 0), frames[0]) is None,
{
    assert forall|i: int| 0 < i < frames.len()
        implies (#[trigger] spec_resize_command(z, prev_down_at(false, frames, i), frames[i]))
            is None by {
        assert(frames[i - 1].primary_down);
        assert(!spec_drag_started(prev_down_at(false, frames, i), frames[i]));
    }
    assert(frames[0].primary_down);
    assert(spec_drag_started(prev_down_at(false, frames, 0), frames[0]));
    match frames[0].pos {
        Some(p) => {
            match spec_hit_zone(z, p) {
                Some(d) => {
                    assert(spec_resize_command(z, prev_down_at(false, frames, 0), frames[0])
                        == Some(HostCommand::BeginResize(d)));
                },
                None => {},
            }
        },
        None => {},
    }
}

} // verus!
