//! The title-bar button: a stateless, stylable clickable control.
//!
//! Each frame the host reports raw pointer facts; the button derives its
//! interaction state (idle, hovered, pressed) fresh from them, picks its
//! background fill and icon tint from that state, and reports a click on
//! release-inside-bounds.  Nothing is persisted across frames.

use vstd::prelude::*;
use crate::geometry::{Pos, Rect};
use crate::resize::PointerFrame;

verus! {

/// An RGBA colour, one byte per channel, as the host theme stores fills.
#[derive(Clone, Copy, PartialEq, Eq, Structural, Debug)]
pub struct Color {
    pub r: u8,
    pub g: u8,
    pub b: u8,
    pub a: u8,
}

/// Fully transparent.
pub open spec fn spec_transparent() -> Color {
    Color { r: 0, g: 0, b: 0, a: 0 }
}

/// Opaque red, the close button's hover tint.
pub open spec fn spec_red() -> Color {
    Color { r: 255, g: 0, b: 0, a: 255 }
}

/// Opaque white, the default icon hover tint.
pub open spec fn spec_white() -> Color {
    Color { r: 255, g: 255, b: 255, a: 255 }
}

/// Premultiplied white with the given alpha, the host theme's faint fill.
pub open spec fn spec_white_alpha(a: u8) -> Color {
    Color { r: a, g: a, b: a, a: a }
}

impl Color {
    pub fn rgba(r: u8, g: u8, b: u8, a: u8) -> (c: Color)
        ensures
            c == (Color { r, g, b, a }),
    {
        Color { r, g, b, a }
    }

    pub fn transparent() -> (c: Color)
        ensures
            c == spec_transparent(),
    {
        Color { r: 0, g: 0, b: 0, a: 0 }
    }

    pub fn red() -> (c: Color)
        ensures
            c == spec_red(),
    {
        Color { r: 255, g: 0, b: 0, a: 255 }
    }

    pub fn white() -> (c: Color)
        ensures
            c == spec_white(),
    {
        Color { r: 255, g: 255, b: 255, a: 255 }
    }

    pub fn white_alpha(a: u8) -> (c: Color)
        ensures
            c == spec_white_alpha(a),
    {
        Color { r: a, g: a, b: a, a }
    }
}

/// Per-corner rounding radii, in UI units.
#[derive(Clone, Copy, PartialEq, Eq, Structural, Debug)]
pub struct Rounding {
    pub nw: u8,
    pub ne: u8,
    pub sw: u8,
    pub se: u8,
}

/// All four corners square.
pub open spec fn spec_rounding_none() -> Rounding {
    Rounding { nw: 0, ne: 0, sw: 0, se: 0 }
}

impl Rounding {
    pub fn none() -> (r: Rounding)
        ensures
            r == spec_rounding_none(),
    {
        Rounding { nw: 0, ne: 0, sw: 0, se: 0 }
    }

    /// Rounding of only the north-east corner, used by the close button to
    /// match the window frame's rounded corner.
    pub fn north_east(radius: u8) -> (r: Rounding)
        ensures
            r == (Rounding { nw: 0, ne: radius, sw: 0, se: 0 }),
    {
        Rounding { nw: 0, ne: radius, sw: 0, se: 0 }
    }
}

/// A width and height in UI units.
#[derive(Clone, Copy, PartialEq, Eq, Structural, Debug)]
pub struct Size {
    pub w: i32,
    pub h: i32,
}

/// Which of the chrome's icons a button shows.  The host loads and draws
/// the actual images; the chrome only decides which one is meant.
#[derive(Clone, Copy, PartialEq, Eq, Structural, Debug)]
pub enum IconKind {
    /// The application's own leading icon.
    App,
    Close,
    Minimize,
    Maximize,
    Restore,
}

/// A control's interaction state, derived fresh each frame.
#[derive(Clone, Copy, PartialEq, Eq, Structural, Debug)]
pub enum InteractionState {
    Idle,
    Hovered,
    Pressed,
}

/// The pointer is on the window and inside `r`.
pub open spec fn spec_in_opt(r: Rect, p: Option<Pos>) -> bool {
    match p {
        Some(q) => r.spec_contains(q),
        None => false,
    }
}

/// The state of a control occupying `rect`: pressed while the primary
/// button is down and the press began inside the control, hovered while
/// the pointer is inside it, idle otherwise.
pub open spec fn spec_interaction_state(rect: Rect, f: PointerFrame, press_origin: Option<Pos>)
    -> InteractionState {
    if f.primary_down && spec_in_opt(rect, press_origin) {
        InteractionState::Pressed
    } else if spec_in_opt(rect, f.pos) {
        InteractionState::Hovered
    } else {
        InteractionState::Idle
    }
}

/// Derive a control's interaction state from this frame's raw pointer
/// facts.  `press_origin` is where the current press began, if the button
/// is or was down; the host input layer supplies it.
pub fn interaction_state(rect: Rect, f: PointerFrame, press_origin: Option<Pos>)
    -> (s: InteractionState)
    ensures
        s == spec_interaction_state(rect, f, press_origin),
{
    let origin_inside = match press_origin {
        Some(o) => rect.contains(o),
        None => false,
    };
    if f.primary_down && origin_inside {
        InteractionState::Pressed
    } else {
        let hovering = match f.pos {
            Some(p) => rect.contains(p),
            None => false,
        };
        if hovering {
            InteractionState::Hovered
        } else {
            InteractionState::Idle
        }
    }
}

/// A click with release-inside-bounds semantics: the press began inside
/// the control and the release landed inside it too.
pub fn click_completes(rect: Rect, press: Pos, release: Pos) -> (r: bool)
    ensures
        r == (rect.spec_contains(press) && rect.spec_contains(release)),
{
    rect.contains(press) && rect.contains(release)
}

/// One title-bar button's per-frame configuration.  Built fresh each frame
/// by the caller; optional fields fall back to the host theme's defaults.
#[derive(Clone, Debug)]
pub struct TitleBarButton {
    pub size: Size,
    /// Background while pressed.
    pub color: Option<Color>,
    /// Background while hovered.
    pub hover_color: Option<Color>,
    /// Tooltip shown after the host's hover delay.
    pub hover_text: Option<String>,
    pub rounding: Option<Rounding>,
    pub icon: Option<IconKind>,
    pub icon_size: Option<Size>,
    pub icon_color: Option<Color>,
    pub icon_hover_color: Option<Color>,
}

/// The background fill for a button in a given state: transparent when
/// idle, the hover colour when hovered, the pressed tint when pressed,
/// with the host theme's faint white fills as defaults.
pub open spec fn spec_background_fill(b: TitleBarButton, s: InteractionState) -> Color {
    match s {
        InteractionState::Idle => spec_transparent(),
        InteractionState::Hovered => match b.hover_color {
            Some(c) => c,
            None => spec_white_alpha(2),
        },
        InteractionState::Pressed => match b.color {
            Some(c) => c,
            None => spec_white_alpha(10),
        },
    }
}

/// The icon tint: the hover tint (default white) while hovered, else the
/// configured tint (default: the theme's text colour).
pub open spec fn spec_icon_tint(b: TitleBarButton, hovered: bool, theme_text: Color) -> Color {
    if hovered {
        match b.icon_hover_color {
            Some(c) => c,
            None => spec_white(),
        }
    } else {
        match b.icon_color {
            Some(c) => c,
            None => theme_text,
        }
    }
}

impl TitleBarButton {
    pub fn new(size: Size) -> (b: TitleBarButton)
        ensures
            b.size == size,
            b.color is None,
            b.hover_color is None,
            b.hover_text is None,
            b.rounding is None,
            b.icon is None,
            b.icon_size is None,
            b.icon_color is None,
            b.icon_hover_color is None,
    {
        TitleBarButton {
            size,
            color: None,
            hover_color: None,
            hover_text: None,
            rounding: None,
            icon: None,
            icon_size: None,
            icon_color: None,
            icon_hover_color: None,
        }
    }

    pub fn with_icon(self, icon: IconKind, size: Size) -> (r: TitleBarButton)
        ensures
            r == (TitleBarButton { icon: Some(icon), icon_size: Some(size), ..self }),
    {
        TitleBarButton { icon: Some(icon), icon_size: Some(size), ..self }
    }

    pub fn with_icon_color(self, color: Color) -> (r: TitleBarButton)
        ensures
            r == (TitleBarButton { icon_color: Some(color), ..self }),
    {
        TitleBarButton { icon_color: Some(color), ..self }
    }

    pub fn with_icon_hover_color(self, color: Color) -> (r: TitleBarButton)
        ensures
            r == (TitleBarButton { icon_hover_color: Some(color), ..self }),
    {
        TitleBarButton { icon_hover_color: Some(color), ..self }
    }

    pub fn with_color(self, color: Color) -> (r: TitleBarButton)
        ensures
            r == (TitleBarButton { color: Some(color), ..self }),
    {
        TitleBarButton { color: Some(color), ..self }
    }

    pub fn with_hover_text(self, text: &str) -> (r: TitleBarButton)
        ensures
            r.hover_text matches Some(t) && t@ == text@,
            r == (TitleBarButton { hover_text: r.hover_text, ..self }),
    {
        TitleBarButton { hover_text: Some(String::from_str(text)), ..self }
    }

    pub fn with_hover_color(self, color: Color) -> (r: TitleBarButton)
        ensures
            r == (TitleBarButton { hover_color: Some(color), ..self }),
    {
        TitleBarButton { hover_color: Some(color), ..self }
    }

    pub fn with_rounding(self, rounding: Rounding) -> (r: TitleBarButton)
        ensures
            r == (TitleBarButton { rounding: Some(rounding), ..self }),
    {
        TitleBarButton { rounding: Some(rounding), ..self }
    }

    /// The background fill for this frame's interaction state.
    pub fn background_fill(&self, s: InteractionState) -> (c: Color)
        ensures
            c == spec_background_fill(*self, s),
    {
        match s {
            InteractionState::Idle => Color::transparent(),
            InteractionState::Hovered => match self.hover_color {
                Some(c) => c,
                None => Color::white_alpha(2),
            },
            InteractionState::Pressed => match self.color {
                Some(c) => c,
                None => Color::white_alpha(10),
            },
        }
    }

    /// The icon tint for this frame.
    pub fn icon_tint(&self, hovered: bool, theme_text: Color) -> (c: Color)
        ensures
            c == spec_icon_tint(*self, hovered, theme_text),
    {
        if hovered {
            match self.icon_hover_color {
                Some(c) => c,
                None => Color::white(),
            }
        } else {
            match self.icon_color {
                Some(c) => c,
                None => theme_text,
            }
        }
    }

    /// The rounding to draw with: square corners unless configured.
    pub fn effective_rounding(&self) -> (r: Rounding)
        ensures
            self.rounding matches Some(c) ==> r == c,
            self.rounding is None ==> r == spec_rounding_none(),
    {
        match self.rounding {
            Some(c) => c,
            None => Rounding::none(),
        }
    }
}

/// The mutable parts of the host theme a button temporarily overrides.
#[derive(Clone, Copy, PartialEq, Eq, Structural, Debug)]
pub struct ThemeFills {
    /// Fill of an idle control.
    pub inactive: Color,
    /// Fill of a hovered control.
    pub hovered: Color,
    /// Fill of a pressed control.
    pub active: Color,
}

/// Install this button's fills in the shared theme, returning the fills to
/// restore once the button has rendered, so sibling controls in the same
/// frame see the theme unchanged.
pub fn apply_button_fills(theme: &mut ThemeFills, b: &TitleBarButton) -> (saved: ThemeFills)
    ensures
        saved == *old(theme),
        final(theme).inactive == spec_background_fill(*b, InteractionState::Idle),
        final(theme).hovered == spec_background_fill(*b, InteractionState::Hovered),
        final(theme).active == spec_background_fill(*b, InteractionState::Pressed),
{
    let saved = *theme;
    theme.inactive = b.background_fill(InteractionState::Idle);
    theme.hovered = b.background_fill(InteractionState::Hovered);
    theme.active = b.background_fill(InteractionState::Pressed);
    saved
}

/// Put back the fills saved before `apply_button_fills`; the theme is then
/// exactly what it was.
pub fn restore_fills(theme: &mut ThemeFills, saved: ThemeFills)
    ensures
        *final(theme) == saved,
{
    *theme = saved;
}

/// The rectangle in which this button's icon is drawn: the icon size,
/// centered in the button rectangle (shifted to the top-left corner when
/// the icon is larger than the button).
pub fn icon_rect(button: Rect, icon: Size) -> (r: Rect)
    requires
        button.well_formed(),
        button.bounded(),
        0 <= icon.w <= crate::COORD_LIMIT,
        0 <= icon.h <= crate::COORD_LIMIT,
    ensures
        r.min.x == button.min.x + spec_center_offset(button.spec_width(), icon.w as int),
        r.min.y == button.min.y + spec_center_offset(button.spec_height(), icon.h as int),
        r.spec_width() == icon.w,
        r.spec_height() == icon.h,
{
    let dx = center_offset(button.max.x - button.min.x, icon.w);
    let dy = center_offset(button.max.y - button.min.y, icon.h);
    Rect {
        min: Pos { x: button.min.x + dx, y: button.min.y + dy },
        max: Pos { x: button.min.x + dx + icon.w, y: button.min.y + dy + icon.h },
    }
}

/// How far from the container's edge a centered item of size `inner`
/// starts, in a container of size `outer`; zero when the item does not fit.
pub open spec fn spec_center_offset(outer: int, inner: int) -> int {
    if outer >= inner {
        (outer - inner) / 2
    } else {
        0
    }
}

pub fn center_offset(outer: i32, inner: i32) -> (r: i32)
    requires
        0 <= outer <= 2 * crate::COORD_LIMIT,
        0 <= inner <= 2 * crate::COORD_LIMIT,
    ensures
        r == spec_center_offset(outer as int, inner as int),
{
    if outer >= inner {
        (outer - inner) / 2
    } else {
        0
    }
}

} // verus!
