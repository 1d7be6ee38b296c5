//! The window composition root: frame styling and the split of the outer
//! rectangle into a title-bar strip and an inset content region.

use vstd::prelude::*;
use crate::button::IconKind;
use crate::geometry::{coord_max, Pos, Rect};
use crate::resize::is_rect;

verus! {

/// Height of the title-bar strip, in UI units.
pub const TITLE_BAR_HEIGHT: i32 = 32;

/// Corner rounding of the window frame when not maximized.
pub const FRAME_ROUNDING: i32 = 5;

/// Outer margin around the window frame when not maximized.
pub const FRAME_MARGIN: i32 = 2;

/// Border stroke width of the window frame when not maximized.
pub const FRAME_STROKE: i32 = 1;

/// Inset of the content region on all sides.
pub const CONTENT_INSET: i32 = 4;

/// How the window frame is drawn, depending on the maximized state the
/// host reports this frame.
#[derive(Clone, Copy, PartialEq, Eq, Structural, Debug)]
pub struct FrameParams {
    pub rounding: i32,
    pub stroke_width: i32,
    pub outer_margin: i32,
}

/// Frame styling is a pure function of the host's maximized flag: square,
/// flush and borderless when maximized; rounded, margined and stroked when
/// not.
pub fn frame_params(maximized: bool) -> (fp: FrameParams)
    ensures
        maximized ==> fp == (FrameParams { rounding: 0, stroke_width: 0, outer_margin: 0 }),
        !maximized ==> fp == (FrameParams {
            rounding: FRAME_ROUNDING,
            stroke_width: FRAME_STROKE,
            outer_margin: FRAME_MARGIN,
        }),
{
    if maximized {
        FrameParams { rounding: 0, stroke_width: 0, outer_margin: 0 }
    } else {
        FrameParams {
            rounding: FRAME_ROUNDING,
            stroke_width: FRAME_STROKE,
            outer_margin: FRAME_MARGIN,
        }
    }
}

/// The two regions the chrome splits the outer rectangle into.
#[derive(Clone, Copy, PartialEq, Eq, Structural, Debug)]
pub struct ChromeLayout {
    /// The full-width strip at the top that holds the title bar.
    pub title_bar: Rect,
    /// What is left for application content, inset on all sides.
    pub content: Rect,
}

/// Split `outer` into a `TITLE_BAR_HEIGHT`-tall top strip and the
/// remainder inset by `CONTENT_INSET` on all sides, clamped to empty when
/// `outer` is too small rather than turning inside out.
pub fn chrome_layout(outer: Rect) -> (l: ChromeLayout)
    requires
        outer.well_formed(),
        outer.bounded(),
    ensures
        is_rect(
            l.title_bar,
            outer.min.x as int,
            outer.min.y as int,
            outer.max.x as int,
            outer.min.y + TITLE_BAR_HEIGHT,
        ),
        is_rect(
            l.content,
            outer.min.x + CONTENT_INSET,
            outer.min.y + TITLE_BAR_HEIGHT + CONTENT_INSET,
            vstd::math::max(outer.min.x + CONTENT_INSET, outer.max.x - CONTENT_INSET),
            vstd::math::max(
                outer.min.y + TITLE_BAR_HEIGHT + CONTENT_INSET,
                outer.max.y - CONTENT_INSET,
            ),
        ),
        l.title_bar.well_formed(),
        l.content.well_formed(),
{
    let title_bar = Rect {
        min: outer.min,
        max: Pos { x: outer.max.x, y: outer.min.y + TITLE_BAR_HEIGHT },
    };
    let cx1 = outer.min.x + CONTENT_INSET;
    let cy1 = outer.min.y + TITLE_BAR_HEIGHT + CONTENT_INSET;
    let content = Rect {
        min: Pos { x: cx1, y: cy1 },
        max: Pos {
            x: coord_max(cx1, outer.max.x - CONTENT_INSET),
            y: coord_max(cy1, outer.max.y - CONTENT_INSET),
        },
    };
    ChromeLayout { title_bar, content }
}

/// The window's per-frame configuration.
#[derive(Clone, Debug)]
pub struct Window {
    /// Title text handed to the title bar.
    pub title: Option<String>,
    /// Leading icon handed to the title bar.
    pub icon: Option<IconKind>,
    /// Whether the title bar offers a maximize button.
    pub maximize: bool,
}

impl Window {
    pub fn new() -> (w: Window)
        ensures
            w.title is None,
            w.icon is None,
            w.maximize == true,
    {
        Window { title: None, icon: None, maximize: true }
    }

    pub fn with_title(self, title: &str) -> (r: Window)
        ensures
            r.title matches Some(t) && t@ == title@,
            r.icon == self.icon,
            r.maximize == self.maximize,
    {
        Window { title: Some(String::from_str(title)), ..self }
    }

    pub fn with_icon(self, icon: IconKind) -> (r: Window)
        ensures
            r == (Window { icon: Some(icon), ..self }),
    {
        Window { icon: Some(icon), ..self }
    }

    pub fn with_maximize(self, maximize: bool) -> (r: Window)
        ensures
            r == (Window { maximize, ..self }),
    {
        Window { maximize, ..self }
    }

    /// The title bar this window shows in `outer` this frame: the top
    /// strip of the chrome layout with this window's title, icon and
    /// maximize flag.
    pub fn title_bar(&self, outer: Rect) -> (t: crate::title_bar::TitleBar)
        requires
            outer.well_formed(),
            outer.bounded(),
        ensures
            t.title == self.title,
            t.icon == self.icon,
            t.maximize == self.maximize,
            is_rect(
                t.rect,
                outer.min.x as int,
                outer.min.y as int,
                outer.max.x as int,
                outer.min.y + TITLE_BAR_HEIGHT,
            ),
    {
        let l = chrome_layout(outer);
        crate::title_bar::TitleBar {
            title: self.title.clone(),
            icon: self.icon,
            maximize: self.maximize,
            rect: l.title_bar,
        }
    }
}

} // verus!
