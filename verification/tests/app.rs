use custom_cursor_overlay::app::{App, CursorRequest, FollowAction, Placement, TickClock, TickOutcome};
use custom_cursor_overlay::coord::Coord;
use custom_cursor_overlay::input::{Contact, Hotkey, InputEvent};
use custom_cursor_overlay::region::RectF;

/// Logical pixels as the overlay uses them.
#[derive(Clone, Copy, Debug)]
struct Px(f32);

impl Coord for Px {
    fn from_int(n: i64) -> Self {
        Px(n as f32)
    }
    fn plus(self, other: Self) -> Self {
        Px(self.0 + other.0)
    }
    fn minus(self, other: Self) -> Self {
        Px(self.0 - other.0)
    }
    fn times(self, other: Self) -> Self {
        Px(self.0 * other.0)
    }
    fn over(self, other: Self) -> Self {
        Px(self.0 / other.0)
    }
    fn larger(self, other: Self) -> Self {
        Px(self.0.max(other.0))
    }
    fn magnitude(self) -> Self {
        Px(self.0.abs())
    }
    fn root(self) -> Self {
        Px(self.0.sqrt())
    }
    fn below(self, other: Self) -> bool {
        self.0 < other.0
    }
    fn at_most(self, other: Self) -> bool {
        self.0 <= other.0
    }
    fn equals(self, other: Self) -> bool {
        self.0 == other.0
    }
    fn reads_as(self, other: Self) -> bool {
        format!("{:?}", self.0) == format!("{:?}", other.0)
    }
    fn rounded(self) -> i32 {
        self.0.round() as i32
    }
    fn truncated(self) -> i32 {
        self.0 as i32
    }

    // The names that contracts give the results.
    fn spec_int(n: i64) -> Self {
        Self::from_int(n)
    }
    fn spec_plus(self, other: Self) -> Self {
        self.plus(other)
    }
    fn spec_minus(self, other: Self) -> Self {
        self.minus(other)
    }
    fn spec_times(self, other: Self) -> Self {
        self.times(other)
    }
    fn spec_over(self, other: Self) -> Self {
        self.over(other)
    }
    fn spec_larger(self, other: Self) -> Self {
        self.larger(other)
    }
    fn spec_magnitude(self) -> Self {
        self.magnitude()
    }
    fn spec_root(self) -> Self {
        self.root()
    }
    fn spec_below(self, other: Self) -> bool {
        self.below(other)
    }
    fn spec_at_most(self, other: Self) -> bool {
        self.at_most(other)
    }
    fn spec_equals(self, other: Self) -> bool {
        self.equals(other)
    }
    fn spec_reads_as(self, other: Self) -> bool {
        self.reads_as(other)
    }
    fn spec_rounded(self) -> i32 {
        self.rounded()
    }
    fn spec_truncated(self) -> i32 {
        self.truncated()
    }
}

const MS: u64 = 1_000_000;

fn clock(ms: u64) -> TickClock {
    TickClock { left_at: ms * MS, grace_at: ms * MS, pen_at: ms * MS }
}

fn rect_of(app: &App<Px>) -> (f32, f32, f32, f32) {
    (app.region.x.0, app.region.y.0, app.region.w.0, app.region.h.0)
}

/// An overlay that follows a target at (100, 200) of size 800 by 600.
fn following() -> App<Px> {
    let mut app: App<Px> = App::new(Some("Canvas".to_string()), 77);
    app.set_native_hwnd(5);
    app.update_target_window(Some(9), false, Some((100, 200, 900, 800)));
    app
}

fn tick_at(app: &mut App<Px>, x: i32, y: i32, ms: u64) -> TickOutcome {
    app.tick(Some((x, y)), None, clock(ms))
}

const LEFT_DOWN: InputEvent = InputEvent::MouseButton { left: true, right: false, down: true };
const LEFT_UP: InputEvent = InputEvent::MouseButton { left: true, right: false, down: false };

#[test]
fn fresh_application() {
    let app: App<Px> = App::new(None, 3);
    assert!(app.enabled && !app.editing && !app.show_region && !app.should_quit());
    assert_eq!(rect_of(&app), (0.0, 0.0, 0.0, 0.0));
    assert_eq!(app.scale().0, 1.0);
    assert_eq!(app.hcursor, 3);
    assert!(!app.wants_search());
    assert_eq!(app.status_cache, "");
}

#[test]
fn scale_is_at_least_a_tenth() {
    let mut app: App<Px> = App::new(None, 0);
    app.set_scale(Px(0.01));
    assert_eq!(app.scale().0, 0.1);
    app.set_scale(Px(1.5));
    assert_eq!(app.scale().0, 1.5);
}

#[test]
fn window_size_fills_an_empty_region_only() {
    let mut app: App<Px> = App::new(None, 0);
    app.set_window_size(Px(1920.0), Px(1080.0));
    assert_eq!(rect_of(&app), (0.0, 0.0, 1920.0, 1080.0));
    app.set_window_size(Px(640.0), Px(480.0));
    assert_eq!(rect_of(&app), (0.0, 0.0, 1920.0, 1080.0));
    app.region.w = Px(0.0);
    app.set_window_size(Px(320.0), Px(240.0));
    assert_eq!(rect_of(&app), (0.0, 0.0, 320.0, 240.0));
    let mut follower = following();
    follower.region.w = Px(0.0);
    follower.set_window_size(Px(320.0), Px(240.0));
    assert_eq!(rect_of(&follower), (0.0, 0.0, 0.0, 600.0));
}

#[test]
fn hotkeys_switch_the_modes() {
    let mut app: App<Px> = App::new(None, 0);
    app.set_window_size(Px(640.0), Px(480.0));
    app.apply_hotkey(Hotkey::ToggleEnabled);
    app.apply_hotkey(Hotkey::ToggleEditing);
    app.apply_hotkey(Hotkey::ToggleOutline);
    assert!(!app.enabled && app.editing && app.show_region);
    app.apply_hotkey(Hotkey::ToggleEnabled);
    app.apply_hotkey(Hotkey::ToggleEditing);
    app.apply_hotkey(Hotkey::ToggleOutline);
    assert!(app.enabled && !app.editing && !app.show_region);
    app.apply_hotkey(Hotkey::RegionFull);
    assert_eq!(rect_of(&app), (0.0, 0.0, 640.0, 480.0));
    app.apply_hotkey(Hotkey::Quit);
    assert!(app.should_quit());
}

#[test]
fn attaching_covers_the_target() {
    let mut app: App<Px> = App::new(Some("Canvas".to_string()), 0);
    app.set_native_hwnd(5);
    app.set_scale(Px(2.0));
    assert!(app.wants_search());
    assert_eq!(app.target(Some(9)), 9);
    let action = app.update_target_window(Some(9), false, Some((100, 200, 900, 800)));
    let place = Placement { left: 100, top: 200, width: 800, height: 600 };
    assert_eq!(
        action,
        FollowAction { fullscreen: Some(false), polish: Some(5), place: Some(place) }
    );
    assert!(app.window_follow_active && !app.wants_search());
    assert_eq!(rect_of(&app), (0.0, 0.0, 400.0, 300.0));
    assert_eq!((app.win_origin.0 .0, app.win_origin.1 .0), (100.0, 200.0));
}

#[test]
fn following_moves_the_window_but_keeps_the_region() {
    let mut app = following();
    app.region.w = Px(50.0);
    let still = app.update_target_window(None, false, Some((100, 200, 900, 800)));
    assert_eq!(still, FollowAction { fullscreen: None, polish: None, place: None });
    let moved = app.update_target_window(None, false, Some((0, 0, 500, 400)));
    let place = Placement { left: 0, top: 0, width: 500, height: 400 };
    assert_eq!(moved, FollowAction { fullscreen: None, polish: None, place: Some(place) });
    assert_eq!(rect_of(&app), (0.0, 0.0, 50.0, 600.0));
    assert_eq!((app.win_w.0, app.win_h.0), (500.0, 400.0));
}

#[test]
fn minimized_target_is_kept_in_mind() {
    let mut app = following();
    let action = app.update_target_window(None, true, None);
    assert_eq!(action, FollowAction { fullscreen: Some(true), polish: Some(5), place: None });
    assert!(!app.window_follow_active && !app.wants_search());
    assert_eq!(app.target_hwnd, 9);
    // Coming back resets the region to the whole target.
    app.region.w = Px(50.0);
    app.update_target_window(None, false, Some((0, 0, 300, 200)));
    assert_eq!(rect_of(&app), (0.0, 0.0, 300.0, 200.0));
}

#[test]
fn vanished_target_is_searched_for_anew() {
    let mut app = following();
    let action = app.update_target_window(None, false, None);
    assert_eq!(action.fullscreen, Some(true));
    assert!(!app.window_follow_active && app.wants_search());
    let idle = app.update_target_window(None, false, None);
    assert_eq!(idle, FollowAction { fullscreen: None, polish: None, place: None });
    assert_eq!(app.target(None), 0);
}

#[test]
fn cleared_target_returns_to_fullscreen() {
    let mut app = following();
    app.target_window = None;
    let action = app.update_target_window(None, false, Some((1, 2, 3, 4)));
    assert_eq!(action, FollowAction { fullscreen: Some(true), polish: Some(5), place: None });
    assert_eq!(app.target_hwnd, 0);
    assert!(app.last_target_rect.is_none());
    assert_eq!((app.win_origin.0 .0, app.win_origin.1 .0), (0.0, 0.0));
}

#[test]
fn pointer_is_window_local() {
    let mut app = following();
    app.set_scale(Px(2.0));
    let (x, y) = app.pointer_local(Some((130, 250)), Some((1, 1)));
    assert_eq!((x.0, y.0), (15.0, 25.0));
    let (x, y) = app.pointer_local(None, Some((-100, 300)));
    assert_eq!((x.0, y.0), (-100.0, 50.0));
    let (x, y) = app.pointer_local(None, None);
    assert_eq!((x.0, y.0), (-50.0, -100.0));
}

#[test]
fn target_on_a_monitor_left_of_the_primary_one() {
    let mut app: App<Px> = App::new(Some("Canvas".to_string()), 77);
    app.update_target_window(Some(9), false, Some((-1000, -500, -200, 100)));
    let (x, y) = app.pointer_local(Some((-990, -480)), None);
    assert_eq!((x.0, y.0), (10.0, 20.0));
    assert!(tick_at(&mut app, -990, -480, 0).forwarding);
    assert!(!tick_at(&mut app, -1001, -480, 1).dirty);
    assert!(!tick_at(&mut app, -1001, -480, 61).forwarding);
}

#[test]
fn moving_the_region_keeps_its_size_and_the_window() {
    let mut app = following();
    app.region = RectF { x: Px(100.0), y: Px(100.0), w: Px(200.0), h: Px(150.0) };
    app.apply_event(&LEFT_DOWN, 0);
    for (x, y) in [(200.0, 170.0), (900.0, 50.0), (-300.0, 2000.0), (200.0, 170.0)] {
        app.update_edit((Px(x), Px(y)));
        let (rx, ry, rw, rh) = rect_of(&app);
        assert_eq!((rw, rh), (200.0, 150.0));
        assert!(rx >= 0.0 && rx + rw <= 800.0 && ry >= 0.0 && ry + rh <= 600.0);
    }
    assert_eq!(rect_of(&app), (0.0, 450.0, 200.0, 150.0));
}

#[test]
fn inside_the_region_the_overlay_owns_the_cursor() {
    let mut app = following();
    let out = tick_at(&mut app, 500, 500, 0);
    assert_eq!(
        out,
        TickOutcome {
            passthrough: Some((5, false)),
            forwarding: true,
            cursor: CursorRequest::Custom(77),
            dirty: true,
        }
    );
    let again = tick_at(&mut app, 501, 500, 1);
    assert_eq!(again, TickOutcome { passthrough: None, dirty: false, ..out });
}

#[test]
fn leaving_the_region_lets_go_after_the_grace_period() {
    let mut app = following();
    tick_at(&mut app, 500, 500, 0);
    assert!(tick_at(&mut app, 50, 500, 10).forwarding);
    assert!(tick_at(&mut app, 50, 500, 69).forwarding);
    let out = tick_at(&mut app, 50, 500, 70);
    assert_eq!(
        out,
        TickOutcome {
            passthrough: Some((5, true)),
            forwarding: false,
            cursor: CursorRequest::Leave,
            dirty: true,
        }
    );
    assert!(tick_at(&mut app, 500, 500, 80).forwarding);
    assert!(tick_at(&mut app, 50, 500, 90).forwarding);
    assert!(!tick_at(&mut app, 50, 500, 150).forwarding);
}

#[test]
fn pen_makes_the_overlay_click_through() {
    let mut app = following();
    app.apply_event(&InputEvent::Pen { contact: Contact::default() }, 1000 * MS);
    assert!(app.pen_active(2999 * MS) && !app.pen_active(3000 * MS));
    let out = tick_at(&mut app, 500, 500, 1001);
    assert_eq!((out.passthrough, out.forwarding), (Some((5, true)), false));
    assert!(!tick_at(&mut app, 500, 500, 2999).forwarding);
    assert!(tick_at(&mut app, 500, 500, 3000).forwarding);
    // A clock that reads earlier counts as no time.
    assert!(app.pen_active(0));
}

#[test]
fn without_a_target_the_overlay_is_click_through() {
    let mut app: App<Px> = App::new(Some("Canvas".to_string()), 1);
    let out = tick_at(&mut app, 10, 10, 0);
    assert_eq!((out.passthrough, out.forwarding), (None, false));
    assert_eq!(app.last_passthrough, Some(true));
    app.apply_hotkey(Hotkey::ToggleEditing);
    assert_eq!(tick_at(&mut app, 10, 10, 1).cursor, CursorRequest::Arrow);
    assert_eq!(app.last_passthrough, Some(true));
}

#[test]
fn disabled_overlay_owns_nothing() {
    let mut app = following();
    app.apply_hotkey(Hotkey::ToggleEnabled);
    let out = tick_at(&mut app, 500, 500, 0);
    assert_eq!((out.passthrough, out.forwarding), (Some((5, true)), false));
}

#[test]
fn region_is_edited_by_dragging() {
    let mut app = following();
    app.apply_hotkey(Hotkey::ToggleEditing);
    let out = tick_at(&mut app, 500, 500, 0);
    assert_eq!((out.passthrough, out.forwarding), (Some((5, false)), false));
    assert_eq!(out.cursor, CursorRequest::Arrow);
    // Drag the right edge, which is at x = 900 on the screen, to the left.
    app.apply_event(&LEFT_DOWN, 0);
    tick_at(&mut app, 900, 500, 1);
    assert_eq!(rect_of(&app), (0.0, 0.0, 800.0, 600.0));
    assert!(tick_at(&mut app, 600, 450, 2).dirty);
    assert_eq!(rect_of(&app), (0.0, 0.0, 500.0, 600.0));
    app.apply_event(&LEFT_UP, 0);
    tick_at(&mut app, 550, 450, 3);
    assert!(app.edit_drag.is_none());
    assert_eq!(rect_of(&app), (0.0, 0.0, 500.0, 600.0));
    // Now there is room to move it.
    app.apply_event(&LEFT_DOWN, 0);
    tick_at(&mut app, 300, 500, 4);
    tick_at(&mut app, 330, 900, 5);
    assert_eq!(rect_of(&app), (30.0, 0.0, 500.0, 600.0));
    // Back at the start of the drag the region stays where it was last.
    tick_at(&mut app, 300, 500, 6);
    assert_eq!(rect_of(&app), (30.0, 0.0, 500.0, 600.0));
}

#[test]
fn press_outside_the_region_grabs_nothing() {
    let mut app = following();
    app.region.w = Px(100.0);
    app.region.h = Px(100.0);
    app.apply_hotkey(Hotkey::ToggleEditing);
    app.apply_event(&LEFT_DOWN, 0);
    app.update_edit((Px(300.0), Px(300.0)));
    assert!(app.edit_drag.is_none());
    // Moving into the region with the button held does not grab it either.
    app.update_edit((Px(50.0), Px(50.0)));
    assert!(app.edit_drag.is_none());
}

#[test]
fn switching_editing_off_drops_the_drag() {
    let mut app = following();
    app.apply_hotkey(Hotkey::ToggleEditing);
    app.apply_event(&LEFT_DOWN, 0);
    app.update_edit((Px(400.0), Px(300.0)));
    assert!(app.edit_drag.is_some());
    app.apply_hotkey(Hotkey::ToggleEditing);
    assert!(app.edit_drag.is_none());
}

#[test]
fn right_button_does_not_edit() {
    let mut app = following();
    app.apply_event(&InputEvent::MouseButton { left: false, right: true, down: true }, 0);
    assert!(!app.left_down);
    app.apply_event(&InputEvent::MouseMove { x: 4, y: 5 }, 0);
    assert_eq!(app.raw.mouse, (4, 5));
}

#[test]
fn invalidation_forces_a_redraw() {
    let mut app = following();
    assert!(tick_at(&mut app, 500, 500, 0).dirty);
    assert!(!tick_at(&mut app, 500, 500, 1).dirty);
    app.invalidate();
    assert!(tick_at(&mut app, 500, 500, 2).dirty);
    app.apply_hotkey(Hotkey::ToggleOutline);
    assert!(tick_at(&mut app, 500, 500, 3).dirty);
}

#[test]
fn status_text_names_target_and_mode() {
    let help = "  |  Ctrl+Shift C:on/off R:영역 O:윤곽 0:전체 Q:종료 Esc:종료";
    let mut app = following();
    assert_eq!(app.status_text(true, false), format!("[Canvas] 커서 ON{help}"));
    assert_eq!(app.status_text(false, false), format!("[Canvas] 대기 ON{help}"));
    assert_eq!(app.status_text(false, true), format!("[Canvas] 펜 ON{help}"));
    app.apply_hotkey(Hotkey::ToggleEditing);
    app.apply_hotkey(Hotkey::ToggleEnabled);
    app.target_window = None;
    assert_eq!(app.status_text(true, true), format!("[] 영역편집 OFF{help}"));
    tick_at(&mut app, 500, 500, 0);
    assert_eq!(app.status_cache, format!("[] 영역편집 OFF{help}"));
}

#[test]
fn whole_pixels_work_as_well() {
    let mut app: App<i64> = App::new(Some("Canvas".to_string()), 7);
    app.update_target_window(Some(9), false, Some((10, 10, 210, 110)));
    assert_eq!((app.region.w, app.region.h), (200, 100));
    let out = app.tick(Some((50, 50)), None, clock(0));
    assert_eq!(out.cursor, CursorRequest::Custom(7));
    assert!(!app.tick(Some((50, 50)), None, clock(1)).dirty);
}
