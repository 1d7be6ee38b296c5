use window_chrome::button::{
    apply_button_fills, click_completes, interaction_state, restore_fills, Color, IconKind,
    InteractionState, Rounding, Size, ThemeFills, TitleBarButton,
};
use window_chrome::geometry::{Pos, Rect};
use window_chrome::host::HostCommand;
use window_chrome::resize::PointerFrame;
use window_chrome::title_bar::{
    button_layout, close_button, drag_region, leading_icon_rect, maximize_button,
    maximize_button_label, minimize_button, title_bar_frame, title_text_pos, TitleBar,
};
use window_chrome::window::{chrome_layout, frame_params, FrameParams, Window};

fn rect(x1: i32, y1: i32, x2: i32, y2: i32) -> Rect {
    Rect { min: Pos { x: x1, y: y1 }, max: Pos { x: x2, y: y2 } }
}

fn pos(x: i32, y: i32) -> Pos {
    Pos { x, y }
}

fn frame(x: i32, y: i32, down: bool) -> PointerFrame {
    PointerFrame { pos: Some(pos(x, y)), primary_down: down }
}

#[test]
fn default_button_fills_follow_state() {
    let b = TitleBarButton::new(Size { w: 44, h: 30 });
    assert_eq!(b.background_fill(InteractionState::Idle), Color { r: 0, g: 0, b: 0, a: 0 });
    assert_eq!(b.background_fill(InteractionState::Hovered), Color { r: 2, g: 2, b: 2, a: 2 });
    assert_eq!(b.background_fill(InteractionState::Pressed), Color { r: 10, g: 10, b: 10, a: 10 });
}

#[test]
fn configured_button_fills_override_defaults() {
    let b = TitleBarButton::new(Size { w: 44, h: 30 })
        .with_color(Color::rgba(255, 0, 0, 100))
        .with_hover_color(Color::red());
    assert_eq!(b.background_fill(InteractionState::Idle), Color::transparent());
    assert_eq!(b.background_fill(InteractionState::Hovered), Color { r: 255, g: 0, b: 0, a: 255 });
    assert_eq!(b.background_fill(InteractionState::Pressed), Color { r: 255, g: 0, b: 0, a: 100 });
}

#[test]
fn icon_tint_follows_hover() {
    let text = Color { r: 200, g: 200, b: 200, a: 255 };
    let plain = TitleBarButton::new(Size { w: 44, h: 30 });
    assert_eq!(plain.icon_tint(false, text), text);
    assert_eq!(plain.icon_tint(true, text), Color::white());
    let tinted = plain
        .clone()
        .with_icon_color(Color::rgba(1, 2, 3, 4))
        .with_icon_hover_color(Color::rgba(5, 6, 7, 8));
    assert_eq!(tinted.icon_tint(false, text), Color::rgba(1, 2, 3, 4));
    assert_eq!(tinted.icon_tint(true, text), Color::rgba(5, 6, 7, 8));
}

#[test]
fn interaction_state_is_derived_from_raw_facts() {
    let r = rect(0, 0, 10, 10);
    assert_eq!(interaction_state(r, frame(5, 5, false), None), InteractionState::Hovered);
    assert_eq!(interaction_state(r, frame(20, 20, false), None), InteractionState::Idle);
    assert_eq!(
        interaction_state(r, frame(5, 5, true), Some(pos(5, 5))),
        InteractionState::Pressed
    );
    // a press that began outside never makes this control pressed
    assert_eq!(
        interaction_state(r, frame(5, 5, true), Some(pos(20, 20))),
        InteractionState::Hovered
    );
    assert_eq!(
        interaction_state(
            r,
            PointerFrame { pos: None, primary_down: false },
            None
        ),
        InteractionState::Idle
    );
}

#[test]
fn click_needs_press_and_release_inside() {
    let r = rect(0, 0, 10, 10);
    assert!(click_completes(r, pos(1, 1), pos(9, 9)));
    assert!(!click_completes(r, pos(1, 1), pos(10, 9)));
    assert!(!click_completes(r, pos(11, 1), pos(9, 9)));
}

#[test]
fn theme_fills_are_restored_after_a_button_renders() {
    let original = ThemeFills {
        inactive: Color::rgba(9, 9, 9, 9),
        hovered: Color::rgba(8, 8, 8, 8),
        active: Color::rgba(7, 7, 7, 7),
    };
    let mut theme = original;
    let b = close_button();
    let saved = apply_button_fills(&mut theme, &b);
    assert_eq!(saved, original);
    assert_eq!(theme.inactive, Color::transparent());
    assert_eq!(theme.hovered, Color::red());
    assert_eq!(theme.active, Color::rgba(255, 0, 0, 100));
    restore_fills(&mut theme, saved);
    assert_eq!(theme, original);
}

#[test]
fn icon_is_centered_in_its_button() {
    let r = window_chrome::button::icon_rect(rect(755, 1, 799, 31), Size { w: 11, h: 22 });
    assert_eq!(r, rect(771, 5, 782, 27));
}

#[test]
fn three_buttons_right_to_left_when_maximize_is_offered() {
    // title bar (0,0)-(800,32), maximize enabled, host not maximized
    let bar = rect(0, 0, 800, 32);
    let l = button_layout(bar, true);
    assert_eq!(l.close, rect(755, 1, 799, 31));
    assert_eq!(l.maximize, Some(rect(711, 1, 755, 31)));
    assert_eq!(l.minimize, rect(667, 1, 711, 31));
    // rightmost is close, the maximize-labeled button in the middle
    let m = l.maximize.unwrap();
    assert!(l.close.min.x > m.min.x && m.min.x > l.minimize.min.x);
    assert_eq!(
        close_button().rounding,
        Some(Rounding { nw: 0, ne: 5, sw: 0, se: 0 })
    );
    let b = maximize_button(false);
    assert_eq!(b.icon, Some(IconKind::Maximize));
    assert_eq!(b.hover_text.as_deref(), Some("Maximize window"));
    assert_eq!(minimize_button().icon, Some(IconKind::Minimize));
}

#[test]
fn two_buttons_without_maximize() {
    let bar = rect(0, 0, 800, 32);
    let l = button_layout(bar, false);
    assert_eq!(l.close, rect(755, 1, 799, 31));
    assert_eq!(l.maximize, None);
    assert_eq!(l.minimize, rect(711, 1, 755, 31));
}

#[test]
fn maximize_label_is_a_pure_function_of_the_flag() {
    let (icon, tip) = maximize_button_label(true);
    assert_eq!(icon, IconKind::Restore);
    assert_eq!(tip, "Restore window");
    let (icon, tip) = maximize_button_label(false);
    assert_eq!(icon, IconKind::Maximize);
    assert_eq!(tip, "Maximize window");
    let b = maximize_button(true);
    assert_eq!(b.icon, Some(IconKind::Restore));
    assert_eq!(b.hover_text.as_deref(), Some("Restore window"));
}

#[test]
fn button_tooltips_match_their_roles() {
    assert_eq!(close_button().hover_text.as_deref(), Some("Close the window"));
    assert_eq!(minimize_button().hover_text.as_deref(), Some("Minimize the window"));
    assert_eq!(close_button().icon, Some(IconKind::Close));
    assert_eq!(close_button().icon_size, Some(Size { w: 11, h: 22 }));
}

#[test]
fn drag_region_excludes_the_button_strip() {
    let bar = rect(0, 0, 800, 32);
    let r = drag_region(bar, true);
    assert_eq!(r, rect(0, 0, 667, 32));
    assert!(r.contains(pos(400, 16)));
    assert!(!r.contains(pos(700, 16)));
    let narrow = drag_region(rect(0, 0, 100, 32), true);
    assert!(narrow.is_empty());
    assert!(narrow.min.x <= narrow.max.x && narrow.min.y <= narrow.max.y);
}

#[test]
fn press_in_drag_region_begins_drag_once() {
    let bar = rect(0, 0, 800, 32);
    let origin = Some(pos(400, 16));
    // press frame: transition from up to down
    let cmds = title_bar_frame(bar, true, false, false, false, origin, frame(400, 16, true));
    assert_eq!(cmds, vec![HostCommand::BeginDrag]);
    // held frames emit nothing more
    let cmds = title_bar_frame(bar, true, false, false, true, origin, frame(410, 16, true));
    assert_eq!(cmds, Vec::new());
    // release over no button emits nothing
    let cmds = title_bar_frame(bar, true, false, false, true, origin, frame(420, 16, false));
    assert_eq!(cmds, Vec::new());
}

#[test]
fn suppressed_press_does_not_begin_drag() {
    let bar = rect(0, 0, 800, 32);
    let cmds =
        title_bar_frame(bar, true, false, true, false, Some(pos(400, 16)), frame(400, 16, true));
    assert_eq!(cmds, Vec::new());
}

#[test]
fn press_on_a_button_does_not_begin_drag() {
    let bar = rect(0, 0, 800, 32);
    let cmds =
        title_bar_frame(bar, true, false, false, false, Some(pos(777, 10)), frame(777, 10, true));
    assert_eq!(cmds, Vec::new());
}

#[test]
fn close_click_emits_one_close_per_gesture() {
    let bar = rect(0, 0, 800, 32);
    let origin = Some(pos(777, 10));
    let gesture = [
        (false, frame(777, 10, true)),
        (true, frame(777, 11, true)),
        (true, frame(778, 12, true)),
        (true, frame(778, 12, false)),
    ];
    let mut commands = Vec::new();
    for (prev, f) in gesture {
        commands.extend(title_bar_frame(bar, true, false, false, prev, origin, f));
    }
    assert_eq!(commands, vec![HostCommand::Close]);
}

#[test]
fn close_press_released_outside_emits_nothing() {
    let bar = rect(0, 0, 800, 32);
    let origin = Some(pos(777, 10));
    let gesture = [
        (false, frame(777, 10, true)),
        (true, frame(600, 16, true)),
        (true, frame(600, 16, false)),
    ];
    let mut commands = Vec::new();
    for (prev, f) in gesture {
        commands.extend(title_bar_frame(bar, true, false, false, prev, origin, f));
    }
    assert_eq!(commands, Vec::new());
}

#[test]
fn maximize_click_toggles_reported_state() {
    let bar = rect(0, 0, 800, 32);
    let origin = Some(pos(730, 10));
    let release = frame(731, 11, false);
    let cmds = title_bar_frame(bar, true, false, false, true, origin, release);
    assert_eq!(cmds, vec![HostCommand::SetMaximized(true)]);
    let cmds = title_bar_frame(bar, true, true, false, true, origin, release);
    assert_eq!(cmds, vec![HostCommand::SetMaximized(false)]);
    // without a maximize button the same spot is the minimize button
    let cmds = title_bar_frame(bar, false, false, false, true, origin, release);
    assert_eq!(cmds, vec![HostCommand::SetMinimized(true)]);
}

#[test]
fn minimize_click_requests_minimize() {
    let bar = rect(0, 0, 800, 32);
    let cmds =
        title_bar_frame(bar, true, false, false, true, Some(pos(680, 10)), frame(680, 10, false));
    assert_eq!(cmds, vec![HostCommand::SetMinimized(true)]);
}

#[test]
fn title_and_leading_icon_have_fixed_anchors() {
    let bar = rect(0, 0, 800, 32);
    assert_eq!(title_text_pos(bar), pos(30, 16));
    assert_eq!(leading_icon_rect(bar), rect(8, 8, 24, 24));
}

#[test]
fn title_bar_builders_accumulate_configuration() {
    let bar = TitleBar::new(rect(0, 0, 800, 32));
    assert_eq!(bar.title, None);
    assert_eq!(bar.icon, None);
    assert!(bar.maximize);
    let bar = bar
        .with_title("My app")
        .with_icon(IconKind::App)
        .with_maximize(false)
        .with_rect(rect(0, 0, 640, 32));
    assert_eq!(bar.title.as_deref(), Some("My app"));
    assert_eq!(bar.icon, Some(IconKind::App));
    assert!(!bar.maximize);
    assert_eq!(bar.rect, rect(0, 0, 640, 32));
}

#[test]
fn window_builders_accumulate_configuration() {
    let w = Window::new();
    assert_eq!(w.title, None);
    assert_eq!(w.icon, None);
    assert!(w.maximize);
    let w = w.with_title("My app").with_icon(IconKind::App).with_maximize(false);
    assert_eq!(w.title.as_deref(), Some("My app"));
    assert_eq!(w.icon, Some(IconKind::App));
    assert!(!w.maximize);
}

#[test]
fn frame_params_depend_only_on_maximized() {
    assert_eq!(
        frame_params(true),
        FrameParams { rounding: 0, stroke_width: 0, outer_margin: 0 }
    );
    assert_eq!(
        frame_params(false),
        FrameParams { rounding: 5, stroke_width: 1, outer_margin: 2 }
    );
}

#[test]
fn chrome_layout_splits_title_bar_and_content() {
    let l = chrome_layout(rect(0, 0, 800, 600));
    assert_eq!(l.title_bar, rect(0, 0, 800, 32));
    assert_eq!(l.content, rect(4, 36, 796, 596));
}

#[test]
fn chrome_layout_clamps_on_tiny_windows() {
    let l = chrome_layout(rect(0, 0, 6, 6));
    assert_eq!(l.title_bar, rect(0, 0, 6, 32));
    assert!(l.content.min.x <= l.content.max.x && l.content.min.y <= l.content.max.y);
    assert!(l.content.is_empty());
}

#[test]
fn window_title_bar_takes_the_top_strip() {
    let w = Window::new().with_title("My app").with_maximize(false);
    let t = w.title_bar(rect(0, 0, 800, 600));
    assert_eq!(t.rect, rect(0, 0, 800, 32));
    assert_eq!(t.title.as_deref(), Some("My app"));
    assert!(!t.maximize);
}

#[test]
fn oversized_icon_sits_at_the_button_corner() {
    let r = window_chrome::button::icon_rect(rect(0, 0, 10, 10), Size { w: 20, h: 4 });
    assert_eq!(r, rect(0, 3, 20, 7));
}
