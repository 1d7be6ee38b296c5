//! The title bar: three window-control buttons painted right-to-left
//! (close, optional maximize-or-restore, minimize), an optional title and
//! leading icon, and a drag-initiation region covering the rest of the bar.
//!
//! All layout is a pure function of the bar rectangle; all commands are a
//! pure function of the bar rectangle and this frame's raw pointer facts.

use vstd::prelude::*;
use crate::button::{Color, IconKind, Rounding, Size, TitleBarButton};
use crate::geometry::{coord_max, Pos, Rect};
use crate::host::HostCommand;
use crate::resize::{
    is_rect, prev_down_at, spec_drag_started, spec_hit_zone, spec_resize_command, PointerFrame,
    ResizeZones,
};

verus! {

/// Width of each window-control button, in UI units.
pub const BUTTON_WIDTH: i32 = 44;

/// Height of each window-control button, in UI units.
pub const BUTTON_HEIGHT: i32 = 30;

/// Width of each button's icon, in UI units.
pub const ICON_WIDTH: i32 = 11;

/// Height of each button's icon, in UI units.
pub const ICON_HEIGHT: i32 = 22;

/// Gap between the rightmost button and the bar's right edge.
pub const RIGHT_INSET: i32 = 1;

/// Horizontal offset of the title text from the bar's left edge.
pub const TITLE_OFFSET_X: i32 = 30;

/// Side of the square leading icon.
pub const LEADING_ICON_SIZE: i32 = 16;

/// Rounding radius of the close button's north-east corner.
pub const CLOSE_ROUNDING: u8 = 5;

/// The title bar's per-frame configuration.
#[derive(Clone, Debug)]
pub struct TitleBar {
    /// Title text painted left-aligned in the bar.
    pub title: Option<String>,
    /// Leading icon painted just left of the title.
    pub icon: Option<IconKind>,
    /// Whether a maximize-or-restore button is offered.
    pub maximize: bool,
    /// The rectangle the bar occupies.
    pub rect: Rect,
}

impl TitleBar {
    pub fn new(rect: Rect) -> (t: TitleBar)
        ensures
            t.title is None,
            t.icon is None,
            t.maximize == true,
            t.rect == rect,
    {
        TitleBar { title: None, icon: None, maximize: true, rect }
    }

    pub fn with_title(self, title: &str) -> (r: TitleBar)
        ensures
            r.title matches Some(t) && t@ == title@,
            r.icon == self.icon,
            r.maximize == self.maximize,
            r.rect == self.rect,
    {
        TitleBar { title: Some(String::from_str(title)), ..self }
    }

    pub fn with_icon(self, icon: IconKind) -> (r: TitleBar)
        ensures
            r == (TitleBar { icon: Some(icon), ..self }),
    {
        TitleBar { icon: Some(icon), ..self }
    }

    pub fn with_maximize(self, maximize: bool) -> (r: TitleBar)
        ensures
            r == (TitleBar { maximize, ..self }),
    {
        TitleBar { maximize, ..self }
    }

    pub fn with_rect(self, rect: Rect) -> (r: TitleBar)
        ensures
            r == (TitleBar { rect, ..self }),
    {
        TitleBar { rect, ..self }
    }
}

/// Vertical offset that centers a button in the bar (zero when the bar is
/// shorter than a button).
pub open spec fn spec_button_dy(bar: Rect) -> int {
    crate::button::spec_center_offset(bar.spec_height(), BUTTON_HEIGHT as int)
}

/// Button slot `k` counted from the right: slot 0 is the rightmost.  Each
/// slot is `BUTTON_WIDTH` wide, `BUTTON_HEIGHT` tall, centered vertically,
/// and `RIGHT_INSET` in from the bar's right edge.
pub open spec fn in_button_slot(bar: Rect, k: int, p: Pos) -> bool {
    &&& bar.max.x - RIGHT_INSET - BUTTON_WIDTH * (k + 1) <= p.x
    &&& p.x < bar.max.x - RIGHT_INSET - BUTTON_WIDTH * k
    &&& bar.min.y + spec_button_dy(bar) <= p.y
    &&& p.y < bar.min.y + spec_button_dy(bar) + BUTTON_HEIGHT
}

/// `r` is exactly button slot `k` of `bar`.
pub open spec fn is_button_slot(bar: Rect, k: int, r: Rect) -> bool {
    is_rect(
        r,
        bar.max.x - RIGHT_INSET - BUTTON_WIDTH * (k + 1),
        bar.min.y + spec_button_dy(bar),
        bar.max.x - RIGHT_INSET - BUTTON_WIDTH * k,
        bar.min.y + spec_button_dy(bar) + BUTTON_HEIGHT,
    )
}

/// How many buttons the bar shows.
pub open spec fn spec_button_count(maximize_enabled: bool) -> int {
    if maximize_enabled {
        3
    } else {
        2
    }
}

/// Width of the whole button strip, inset included.
pub open spec fn spec_strip_width(maximize_enabled: bool) -> int {
    RIGHT_INSET + BUTTON_WIDTH * spec_button_count(maximize_enabled)
}

/// The drag-initiation region: the bar minus the button strip, clamped to
/// empty when the bar is narrower than the strip.
pub open spec fn in_drag_region(bar: Rect, maximize_enabled: bool, p: Pos) -> bool {
    &&& bar.min.x <= p.x
    &&& p.x < vstd::math::max(bar.min.x as int, bar.max.x - spec_strip_width(maximize_enabled))
    &&& bar.min.y <= p.y
    &&& p.y < bar.max.y
}

/// Where each window-control button sits this frame.
#[derive(Clone, Copy, PartialEq, Eq, Structural, Debug)]
pub struct ButtonLayout {
    /// Rightmost: the close button.
    pub close: Rect,
    /// Middle, only when the bar offers maximize: maximize-or-restore.
    pub maximize: Option<Rect>,
    /// Leftmost of the strip: the minimize button.
    pub minimize: Rect,
}

/// Compute the button strip of `bar`, right-to-left: close in slot 0,
/// maximize-or-restore in slot 1 when offered, minimize in the next slot.
pub fn button_layout(bar: Rect, maximize_enabled: bool) -> (l: ButtonLayout)
    requires
        bar.well_formed(),
        bar.bounded(),
    ensures
        is_button_slot(bar, 0, l.close),
        maximize_enabled ==> (l.maximize matches Some(m) && is_button_slot(bar, 1, m)),
        !maximize_enabled ==> l.maximize is None,
        is_button_slot(bar, spec_button_count(maximize_enabled) - 1, l.minimize),
        l.close.well_formed(),
        l.minimize.well_formed(),
{
    let dy = crate::button::center_offset(bar.max.y - bar.min.y, BUTTON_HEIGHT);
    let y1 = bar.min.y + dy;
    let y2 = y1 + BUTTON_HEIGHT;
    let right = bar.max.x - RIGHT_INSET;
    let close = Rect { min: Pos { x: right - BUTTON_WIDTH, y: y1 }, max: Pos { x: right, y: y2 } };
    if maximize_enabled {
        let maximize = Rect {
            min: Pos { x: right - 2 * BUTTON_WIDTH, y: y1 },
            max: Pos { x: right - BUTTON_WIDTH, y: y2 },
        };
        let minimize = Rect {
            min: Pos { x: right - 3 * BUTTON_WIDTH, y: y1 },
            max: Pos { x: right - 2 * BUTTON_WIDTH, y: y2 },
        };
        ButtonLayout { close, maximize: Some(maximize), minimize }
    } else {
        let minimize = Rect {
            min: Pos { x: right - 2 * BUTTON_WIDTH, y: y1 },
            max: Pos { x: right - BUTTON_WIDTH, y: y2 },
        };
        ButtonLayout { close, maximize: None, minimize }
    }
}

/// The drag-initiation region as a rectangle.
pub fn drag_region(bar: Rect, maximize_enabled: bool) -> (r: Rect)
    requires
        bar.well_formed(),
        bar.bounded(),
    ensures
        r.well_formed(),
        forall|p: Pos| #[trigger] r.spec_contains(p) <==> in_drag_region(bar, maximize_enabled, p),
{
    let strip = if maximize_enabled {
        RIGHT_INSET + 3 * BUTTON_WIDTH
    } else {
        RIGHT_INSET + 2 * BUTTON_WIDTH
    };
    Rect {
        min: bar.min,
        max: Pos { x: coord_max(bar.min.x, bar.max.x - strip), y: bar.max.y },
    }
}

/// The icon and tooltip of the maximize-or-restore button are a pure
/// function of the maximized flag the host reports at render time.
pub fn maximize_button_label(maximized: bool) -> (r: (IconKind, String))
    ensures
        maximized ==> r.0 == IconKind::Restore && r.1@ == "Restore window"@,
        !maximized ==> r.0 == IconKind::Maximize && r.1@ == "Maximize window"@,
{
    if maximized {
        (IconKind::Restore, String::from_str("Restore window"))
    } else {
        (IconKind::Maximize, String::from_str("Maximize window"))
    }
}

/// The close button's fixed per-frame configuration: red tints, a rounded
/// north-east corner, the close icon, and its tooltip.
pub fn close_button() -> (b: TitleBarButton)
    ensures
        b.size == (Size { w: BUTTON_WIDTH, h: BUTTON_HEIGHT }),
        b.color == Some(Color { r: 255, g: 0, b: 0, a: 100 }),
        b.hover_color == Some(crate::button::spec_red()),
        b.rounding == Some(Rounding { nw: 0, ne: CLOSE_ROUNDING, sw: 0, se: 0 }),
        b.icon == Some(IconKind::Close),
        b.icon_size == Some(Size { w: ICON_WIDTH, h: ICON_HEIGHT }),
        b.hover_text matches Some(t) && t@ == "Close the window"@,
{
    TitleBarButton::new(Size { w: BUTTON_WIDTH, h: BUTTON_HEIGHT })
        .with_color(Color::rgba(255, 0, 0, 100))
        .with_rounding(Rounding::north_east(CLOSE_ROUNDING))
        .with_icon(IconKind::Close, Size { w: ICON_WIDTH, h: ICON_HEIGHT })
        .with_hover_color(Color::red())
        .with_hover_text("Close the window")
}

/// The maximize-or-restore button's configuration for the reported
/// maximized state.
pub fn maximize_button(maximized: bool) -> (b: TitleBarButton)
    ensures
        b.size == (Size { w: BUTTON_WIDTH, h: BUTTON_HEIGHT }),
        b.icon_size == Some(Size { w: ICON_WIDTH, h: ICON_HEIGHT }),
        maximized ==> b.icon == Some(IconKind::Restore),
        !maximized ==> b.icon == Some(IconKind::Maximize),
        maximized ==> (b.hover_text matches Some(t) && t@ == "Restore window"@),
        !maximized ==> (b.hover_text matches Some(t) && t@ == "Maximize window"@),
{
    let label = maximize_button_label(maximized);
    TitleBarButton::new(Size { w: BUTTON_WIDTH, h: BUTTON_HEIGHT })
        .with_icon(label.0, Size { w: ICON_WIDTH, h: ICON_HEIGHT })
        .with_hover_text(label.1.as_str())
}

/// The minimize button's fixed configuration.
pub fn minimize_button() -> (b: TitleBarButton)
    ensures
        b.size == (Size { w: BUTTON_WIDTH, h: BUTTON_HEIGHT }),
        b.icon == Some(IconKind::Minimize),
        b.icon_size == Some(Size { w: ICON_WIDTH, h: ICON_HEIGHT }),
        b.hover_text matches Some(t) && t@ == "Minimize the window"@,
{
    TitleBarButton::new(Size { w: BUTTON_WIDTH, h: BUTTON_HEIGHT })
        .with_icon(IconKind::Minimize, Size { w: ICON_WIDTH, h: ICON_HEIGHT })
        .with_hover_text("Minimize the window")
}

/// Where the title text's left-center anchor sits.
pub fn title_text_pos(bar: Rect) -> (p: Pos)
    requires
        bar.well_formed(),
        bar.bounded(),
    ensures
        p.x == bar.min.x + TITLE_OFFSET_X,
        p.y == bar.min.y + bar.spec_height() / 2,
{
    Pos { x: bar.min.x + TITLE_OFFSET_X, y: bar.min.y + (bar.max.y - bar.min.y) / 2 }
}

/// Where the leading icon is painted: a `LEADING_ICON_SIZE` square
/// centered at `LEADING_ICON_SIZE` units in from the bar's left edge.
pub fn leading_icon_rect(bar: Rect) -> (r: Rect)
    requires
        bar.well_formed(),
        bar.bounded(),
    ensures
        is_rect(
            r,
            bar.min.x + LEADING_ICON_SIZE / 2,
            bar.min.y + bar.spec_height() / 2 - LEADING_ICON_SIZE / 2,
            bar.min.x + LEADING_ICON_SIZE / 2 + LEADING_ICON_SIZE,
            bar.min.y + bar.spec_height() / 2 - LEADING_ICON_SIZE / 2 + LEADING_ICON_SIZE,
        ),
{
    let cy = bar.min.y + (bar.max.y - bar.min.y) / 2;
    let x1 = bar.min.x + LEADING_ICON_SIZE / 2;
    let y1 = cy - LEADING_ICON_SIZE / 2;
    Rect {
        min: Pos { x: x1, y: y1 },
        max: Pos { x: x1 + LEADING_ICON_SIZE, y: y1 + LEADING_ICON_SIZE },
    }
}

/// The primary button is released this frame: up now, down a frame ago.
pub open spec fn spec_release_now(prev_down: bool, f: PointerFrame) -> bool {
    !f.primary_down && prev_down
}

/// The command a completed click gesture (press at `o`, release at `p`)
/// yields: each button claims the gesture only when both its endpoints lie
/// inside that button's slot.
pub open spec fn spec_click_commands(
    bar: Rect,
    maximize_enabled: bool,
    maximized: bool,
    o: Pos,
    p: Pos,
) -> Seq<HostCommand> {
    if in_button_slot(bar, 0, o) && in_button_slot(bar, 0, p) {
        seq![HostCommand::Close]
    } else if maximize_enabled && in_button_slot(bar, 1, o) && in_button_slot(bar, 1, p) {
        seq![HostCommand::SetMaximized(!maximized)]
    } else if in_button_slot(bar, spec_button_count(maximize_enabled) - 1, o)
        && in_button_slot(bar, spec_button_count(maximize_enabled) - 1, p) {
        seq![HostCommand::SetMinimized(true)]
    } else {
        Seq::empty()
    }
}

/// Every command the title bar emits in one frame, in order: `BeginDrag`
/// when a primary-button press begins in the drag region (and is not
/// suppressed), then the command of a click gesture completed this frame.
pub open spec fn spec_title_bar_commands(
    bar: Rect,
    maximize_enabled: bool,
    maximized: bool,
    suppress_drag: bool,
    prev_down: bool,
    press_origin: Option<Pos>,
    f: PointerFrame,
) -> Seq<HostCommand> {
    let drag: Seq<HostCommand> = if spec_drag_started(prev_down, f) && !suppress_drag && (match f.pos {
        Some(p) => in_drag_region(bar, maximize_enabled, p),
        None => false,
    }) {
        seq![HostCommand::BeginDrag]
    } else {
        Seq::empty()
    };
    let click: Seq<HostCommand> = if spec_release_now(prev_down, f) {
        match (press_origin, f.pos) {
            (Some(o), Some(p)) => spec_click_commands(bar, maximize_enabled, maximized, o, p),
            _ => Seq::empty(),
        }
    } else {
        Seq::empty()
    };
    drag + click
}

/// One frame of the title bar's interaction.
///
/// `prev_down` is the primary button's state on the previous frame;
/// `press_origin` is where the current or last press began, as the host
/// input layer reports it; `suppress_drag` lets the caller withhold drag
/// initiation (for instance while the pointer sits in a top resize hot
/// zone, so the bar and the resize border never claim the same press).
pub fn title_bar_frame(
    bar: Rect,
    maximize_enabled: bool,
    maximized: bool,
    suppress_drag: bool,
    prev_down: bool,
    press_origin: Option<Pos>,
    f: PointerFrame,
) -> (cmds: Vec<HostCommand>)
    requires
        bar.well_formed(),
        bar.bounded(),
    ensures
        cmds@ == spec_title_bar_commands(
            bar, maximize_enabled, maximized, suppress_drag, prev_down, press_origin, f),
{
    let mut cmds: Vec<HostCommand> = Vec::new();
    let region = drag_region(bar, maximize_enabled);
    if f.primary_down && !prev_down && !suppress_drag {
        let in_region = match f.pos {
            Some(p) => region.contains(p),
            None => false,
        };
        if in_region {
            cmds.push(HostCommand::BeginDrag);
        }
    }
    if !f.primary_down && prev_down {
        match (press_origin, f.pos) {
            (Some(o), Some(p)) => {
                let l = button_layout(bar, maximize_enabled);
                if l.close.contains(o) && l.close.contains(p) {
                    cmds.push(HostCommand::Close);
                } else {
                    let on_maximize = match l.maximize {
                        Some(m) => m.contains(o) && m.contains(p),
                        None => false,
                    };
                    if on_maximize {
                        cmds.push(HostCommand::SetMaximized(!maximized));
                    } else if l.minimize.contains(o) && l.minimize.contains(p) {
                        cmds.push(HostCommand::SetMinimized(true));
                    }
                }
            },
            _ => {},
        }
    }
    proof {
        assert(cmds@ =~= spec_title_bar_commands(
            bar, maximize_enabled, maximized, suppress_drag, prev_down, press_origin, f));
    }
    cmds
}

/// Clicking the close button yields exactly one `Close` per gesture: the
/// press lands inside the button and only the release frame emits, and it
/// emits a single `Close` when the release also lands inside the button and
/// nothing at all when it lands outside.  `frames` are the gesture's
/// frames: the primary button is down on all but the last, was up just
/// before the first, the press happens at `p` and the release at `q`.
pub proof fn lemma_close_click_emits_once(
    bar: Rect,
    maximize_enabled: bool,
    maximized: bool,
    frames: Seq<PointerFrame>,
    p: Pos,
    q: Pos,
)
    requires
        bar.well_formed(),
        frames.len() >= 2,
        forall|i: int| 0 <= i < frames.len() - 1 ==> (#[trigger] frames[i]).primary_down,
        !frames[frames.len() - 1].primary_down,
        frames[0].pos == Some(p),
        frames[frames.len() - 1].pos == Some(q),
        in_button_slot(bar, 0, p),
    ensures
        forall|i: int| 0 <= i < frames.len() - 1
            ==> (#[trigger] spec_title_bar_commands(bar, maximize_enabled, maximized, false,
                    prev_down_at(false, frames, i), Some(p), frames[i]))
                == Seq::<HostCommand>::empty(),
        in_button_slot(bar, 0, q)
            ==> spec_title_bar_commands(bar, maximize_enabled, maximized, false,
                    prev_down_at(false, frames, frames.len() - 1), Some(p),
                    frames[frames.len() - 1])
                == seq![HostCommand::Close],
        !in_button_slot(bar, 0, q)
            ==> spec_title_bar_commands(bar, maximize_enabled, maximized, false,
                    prev_down_at(false, frames, frames.len() - 1), Some(p),
                    frames[frames.len() - 1])
                == Seq::<HostCommand>::empty(),
{
    assert forall|i: int| 0 <= i < frames.len() - 1
        implies (#[trigger] spec_title_bar_commands(bar, maximize_enabled, maximized, false,
                prev_down_at(false, frames, i), Some(p), frames[i]))
            == Seq::<HostCommand>::empty() by {
        assert(frames[i].primary_down);
        if i > 0 {
            assert(frames[i - 1].primary_down);
        }
        assert(spec_title_bar_commands(bar, maximize_enabled, maximized, false,
            prev_down_at(false, frames, i), Some(p), frames[i])
            =~= Seq::<HostCommand>::empty());
    }
    let last = frames.len() - 1;
    assert(frames[last - 1].primary_down);
    if in_button_slot(bar, 0, q) {
        assert(spec_title_bar_commands(bar, maximize_enabled, maximized, false,
            prev_down_at(false, frames, last), Some(p), frames[last])
            =~= seq![HostCommand::Close]);
    } else {
        assert(spec_title_bar_commands(bar, maximize_enabled, maximized, false,
            prev_down_at(false, frames, last), Some(p), frames[last])
            =~= Seq::<HostCommand>::empty());
    }
}

/// A single continuous press in the bar emits `BeginDrag` at most once,
/// however many frames it is held: only the gesture's first frame can
/// emit, and it emits exactly when the press lands in the drag region.
/// `frames` are the gesture's frames: the primary button is down on every
/// one of them and was up just before the first.
pub proof fn lemma_bar_drag_emits_once(
    bar: Rect,
    maximize_enabled: bool,
    maximized: bool,
    frames: Seq<PointerFrame>,
    origin: Option<Pos>,
)
    requires
        bar.well_formed(),
        frames.len() > 0,
        forall|i: int| 0 <= i < frames.len() ==> (#[trigger] frames[i]).primary_down,
    ensures
        forall|i: int| 0 < i < frames.len()
            ==> (#[trigger] spec_title_bar_commands(bar, maximize_enabled, maximized, false,
                    prev_down_at(false, frames, i), origin, frames[i]))
                == Seq::<HostCommand>::empty(),
        frames[0].pos matches Some(p)
            ==> in_drag_region(bar, maximize_enabled, p)
            ==> spec_title_bar_commands(bar, maximize_enabled, maximized, false,
                    prev_down_at(false, frames, 0), origin, frames[0])
                == seq![HostCommand::BeginDrag],
        frames[0].pos matches Some(p)
            ==> !in_drag_region(bar, maximize_enabled, p)
            ==> spec_title_bar_commands(bar, maximize_enabled, maximized, false,
                    prev_down_at(false, frames, 0), origin, frames[0])
                == Seq::<HostCommand>::empty(),
{
    assert forall|i: int| 0 < i < frames.len()
        implies (#[trigger] spec_title_bar_commands(bar, maximize_enabled, maximized, false,
                prev_down_at(false, frames, i), origin, frames[i]))
            == Seq::<HostCommand>::empty() by {
        assert(frames[i].primary_down);
        assert(frames[i - 1].primary_down);
        assert(spec_title_bar_commands(bar, maximize_enabled, maximized, false,
            prev_down_at(false, frames, i), origin, frames[i])
            =~= Seq::<HostCommand>::empty());
    }
    assert(frames[0].primary_down);
    match frames[0].pos {
        Some(p) => {
            if in_drag_region(bar, maximize_enabled, p) {
                assert(spec_title_bar_commands(bar, maximize_enabled, maximized, false,
                    prev_down_at(false, frames, 0), origin, frames[0])
                    =~= seq![HostCommand::BeginDrag]);
            } else {
                assert(spec_title_bar_commands(bar, maximize_enabled, maximized, false,
                    prev_down_at(false, frames, 0), origin, frames[0])
                    =~= Seq::<HostCommand>::empty());
            }
        },
        None => {
            assert(spec_title_bar_commands(bar, maximize_enabled, maximized, false,
                prev_down_at(false, frames, 0), origin, frames[0])
                =~= Seq::<HostCommand>::empty());
        },
    }
}

/// The resize border and the title bar never claim the same press: when
/// the caller suppresses bar drags exactly while the pointer hovers a
/// resize zone, no frame emits both a `BeginResize` and a `BeginDrag`.
pub proof fn lemma_no_double_claim(
    bar: Rect,
    maximize_enabled: bool,
    maximized: bool,
    z: ResizeZones,
    suppress_drag: bool,
    prev_down: bool,
    origin: Option<Pos>,
    f: PointerFrame,
)
    requires
        suppress_drag == (f.pos matches Some(p) && spec_hit_zone(z, p) is Some),
    ensures
        spec_resize_command(z, prev_down, f) is Some
            ==> !spec_title_bar_commands(bar, maximize_enabled, maximized, suppress_drag,
                    prev_down, origin, f).contains(HostCommand::BeginDrag),
{
    if spec_resize_command(z, prev_down, f) is Some {
        assert(suppress_drag);
        let cmds = spec_title_bar_commands(bar, maximize_enabled, maximized, suppress_drag,
            prev_down, origin, f);
        assert forall|j: int| 0 <= j < cmds.len()
            implies cmds[j] != HostCommand::BeginDrag by {
        }
        assert(!cmds.contains(HostCommand::BeginDrag));
    }
}

} // verus!
