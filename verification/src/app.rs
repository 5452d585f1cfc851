//! Core application state.
//!
//! The overlay belongs to a target window and follows it. Inside its region it
//! owns the hit-testing and shows the custom cursor; outside it, while a pen
//! is in use, and without a target it is click-through. The region is edited
//! by mouse drags, and a few global hotkeys switch the modes.
//!
//! Times are readings of a monotonic clock in nanoseconds.

use vstd::prelude::*;

use crate::config::MIN_REGION;
use crate::coord;
use crate::coord::{from_ratio, Coord};
use crate::input::{EventView, Hotkey, InputEvent, InputSnapshot};
use crate::region;
use crate::region::{full, EditDrag, EditMode, RectF};
use crate::render;

verus! {

/// How long the pointer may be out of the region before the overlay lets go
/// (60 ms): pen and mouse jitter at the boundary.
pub const GRACE_NS: u64 = 60_000_000;

/// How long the overlay stays click-through after the last pen event (2 s), so
/// that strokes are never cut midway.
pub const PEN_ACTIVE_NS: u64 = 2_000_000_000;

/// What the last drawn frame showed.
#[derive(Debug)]
pub struct Fingerprint<T> {
    pub enabled: bool,
    pub editing: bool,
    pub show_region: bool,
    pub owning: bool,
    pub passthrough: bool,
    pub pen_active: bool,
    pub region: RectF<T>,
    pub status: String,
}

impl<T: Coord> Fingerprint<T> {
    /// Do two frames show the same?
    pub open spec fn spec_same(self, other: Fingerprint<T>) -> bool {
        &&& self.enabled == other.enabled
        &&& self.editing == other.editing
        &&& self.show_region == other.show_region
        &&& self.owning == other.owning
        &&& self.passthrough == other.passthrough
        &&& self.pen_active == other.pen_active
        &&& self.region.spec_reads_as(other.region)
        &&& self.status@ == other.status@
    }

    /// Do two frames show the same?
    pub fn same(&self, other: &Fingerprint<T>) -> (r: bool)
        ensures
            r == self.spec_same(*other),
    {
        self.enabled == other.enabled && self.editing == other.editing && self.show_region
            == other.show_region && self.owning == other.owning && self.passthrough
            == other.passthrough && self.pen_active == other.pen_active && self.region.reads_as(
            &other.region,
        ) && self.status == other.status
    }
}

/// Where the overlay window goes: the rectangle of the target.
#[derive(Clone, Copy, Debug, PartialEq, Eq, Structural)]
pub struct Placement {
    pub left: i32,
    pub top: i32,
    pub width: i32,
    pub height: i32,
}

/// What following the target asks of the overlay window.
#[derive(Clone, Copy, Debug, PartialEq, Eq, Structural)]
pub struct FollowAction {
    /// Enter (`true`) or leave (`false`) fullscreen.
    pub fullscreen: Option<bool>,
    /// Re-apply the overlay styles of this window afterwards.
    pub polish: Option<usize>,
    /// Move and resize the window.
    pub place: Option<Placement>,
}

/// A cursor request.
#[derive(Clone, Copy, Debug, PartialEq, Eq, Structural)]
pub enum CursorRequest {
    /// Show the custom cursor with this handle.
    Custom(usize),
    /// Show the arrow.
    Arrow,
    /// Leave the cursor to the app below.
    Leave,
}

/// Readings of the clock during a tick, in the order in which they are taken.
#[derive(Clone, Copy, Debug)]
pub struct TickClock {
    /// When the pointer is found out of the region.
    pub left_at: u64,
    /// When the grace period is looked at.
    pub grace_at: u64,
    /// When the pen is looked at.
    pub pen_at: u64,
}

/// What a tick asks of the platform.
#[derive(Clone, Copy, Debug, PartialEq, Eq)]
pub struct TickOutcome {
    /// Switch click pass-through of this window.
    pub passthrough: Option<(usize, bool)>,
    /// Replay pointer input to the app below?
    pub forwarding: bool,
    /// The cursor to show.
    pub cursor: CursorRequest,
    /// Has the overlay content changed, so that it must be redrawn?
    pub dirty: bool,
}

/// The application.
pub struct App<T> {
    // --- settings (toggled by hotkeys) ---
    pub enabled: bool,
    pub editing: bool,
    pub show_region: bool,
    pub region: RectF<T>,
    pub target_window: Option<String>,
    pub quit: bool,
    // --- target-window tracking ---
    /// Handle of the target, zero if it is not known.
    pub target_hwnd: usize,
    /// Left, top, right and bottom of the target when it was last followed.
    pub last_target_rect: Option<(i32, i32, i32, i32)>,
    /// Does the overlay cover the target?
    pub window_follow_active: bool,
    /// Has the region been set to the whole target?
    pub region_initialized_for_target: bool,
    // --- window / coordinates ---
    /// Handle of the overlay window, zero if it is not known.
    pub native_hwnd: usize,
    /// Handle of the custom cursor.
    pub hcursor: usize,
    pub scale: T,
    pub win_w: T,
    pub win_h: T,
    /// Overlay window top-left in physical screen pixels.
    pub win_origin: (T, T),
    // --- per-frame state ---
    /// Since when the pointer has been out of the region.
    pub last_out_region: Option<u64>,
    /// Pass-through as it was last applied.
    pub last_passthrough: Option<bool>,
    /// When the last pen event arrived.
    pub last_pen_at: Option<u64>,
    // --- region editing ---
    pub left_down: bool,
    pub prev_left_down: bool,
    pub edit_drag: Option<EditDrag<T>>,
    // --- raw input ---
    pub raw: InputSnapshot,
    // --- render state ---
    /// The last frame, `None` if the next one has to be drawn in any case.
    pub last_fp: Option<Fingerprint<T>>,
    /// Last status text.
    pub status_cache: String,
}

/// Nanoseconds from `since` to `now`; none if the clock reads earlier.
pub open spec fn elapsed(now: u64, since: u64) -> u64 {
    if now < since {
        0
    } else {
        (now - since) as u64
    }
}

fn elapsed_ns(now: u64, since: u64) -> (r: u64)
    ensures
        r == elapsed(now, since),
{
    if now < since {
        0
    } else {
        now - since
    }
}

/// The help at the end of the status text.
pub open spec fn status_help() -> Seq<char> {
    "  |  Ctrl+Shift C:on/off R:영역 O:윤곽 0:전체 Q:종료 Esc:종료"@
}

impl<T: Coord> App<T> {
    /// A fresh application for a target window, with the handle of the custom
    /// cursor. Its region is empty until the window size is known.
    pub fn new(target_window: Option<String>, hcursor: usize) -> (r: App<T>)
        ensures
            r.enabled && !r.editing && !r.show_region && !r.quit,
            r.region == region::spec_full(T::spec_int(0), T::spec_int(0)),
            r.target_window == target_window,
            r.target_hwnd == 0 && r.last_target_rect is None && !r.window_follow_active
                && !r.region_initialized_for_target,
            r.native_hwnd == 0 && r.hcursor == hcursor,
            r.scale == T::spec_int(1) && r.win_w == T::spec_int(0) && r.win_h == T::spec_int(0),
            r.win_origin == (T::spec_int(0), T::spec_int(0)),
            r.last_out_region is None && r.last_passthrough is None && r.last_pen_at is None,
            !r.left_down && !r.prev_left_down && r.edit_drag is None,
            r.raw.mouse == (0i32, 0i32) && r.raw.raw_delta == (0i64, 0i64) && r.raw.buttons == 0
                && r.raw.wheel == 0 && r.raw.pen is None && r.raw.touch is None
                && r.raw.hid_reports == 0 && r.raw.last_device@ == ""@,
            r.last_fp is None && r.status_cache@ == ""@,
            r.wf(),
    {
        let zero = T::from_int(0);
        App {
            enabled: true,
            editing: false,
            show_region: false,
            region: full(zero, zero),
            target_window,
            quit: false,
            target_hwnd: 0,
            last_target_rect: None,
            window_follow_active: false,
            region_initialized_for_target: false,
            native_hwnd: 0,
            hcursor,
            scale: T::from_int(1),
            win_w: zero,
            win_h: zero,
            win_origin: (zero, zero),
            last_out_region: None,
            last_passthrough: None,
            last_pen_at: None,
            left_down: false,
            prev_left_down: false,
            edit_drag: None,
            raw: InputSnapshot::default(),
            last_fp: None,
            status_cache: "".to_owned(),
        }
    }

    /// While the overlay follows a target, it knows the target's handle and
    /// rectangle, sits at its corner, and has had its region set to it; while
    /// it follows none, all of that is cleared.
    pub open spec fn wf(self) -> bool {
        if self.window_follow_active {
            &&& self.target_hwnd != 0
            &&& self.region_initialized_for_target
            &&& self.last_target_rect matches Some((l, t, r, b)) && self.win_origin == (
                T::spec_int(l as i64),
                T::spec_int(t as i64),
            )
        } else {
            &&& !self.region_initialized_for_target
            &&& self.last_target_rect is None
            &&& self.win_origin == (T::spec_int(0), T::spec_int(0))
        }
    }

    // ---- setters ----------------------------------------------------------

    /// Set the handle of the overlay window.
    pub fn set_native_hwnd(&mut self, hwnd: usize)
        ensures
            *final(self) == (App { native_hwnd: hwnd, ..*old(self) }),
    {
        self.native_hwnd = hwnd;
    }

    /// Set the scale factor, at least a tenth.
    pub fn set_scale(&mut self, scale: T)
        ensures
            *final(self) == (App { scale: render::effective_scale(scale), ..*old(self) }),
    {
        self.scale = scale.larger(from_ratio(1, 10));
    }

    /// The scale factor.
    pub fn scale(&self) -> (r: T)
        ensures
            r == self.scale,
    {
        self.scale
    }

    /// The application after the window size became `w` by `h`: without a
    /// target, an empty region becomes the whole window.
    pub open spec fn after_size(self, w: T, h: T) -> App<T> {
        App {
            win_w: w,
            win_h: h,
            region: if !self.window_follow_active && self.region.w.spec_at_most(T::spec_int(0)) {
                region::spec_full(w, h)
            } else {
                self.region
            },
            ..self
        }
    }

    /// Set the window size in logical pixels. Without a target, an empty region
    /// becomes the whole window.
    pub fn set_window_size(&mut self, w: T, h: T)
        ensures
            *final(self) == old(self).after_size(w, h),
    {
        self.win_w = w;
        self.win_h = h;
        if !self.window_follow_active && self.region.w.at_most(T::from_int(0)) {
            self.region = full(w, h);
        }
    }

    /// Has the user asked to quit?
    pub fn should_quit(&self) -> (r: bool)
        ensures
            r == self.quit,
    {
        self.quit
    }

    /// Force a redraw on the next tick (for example after a window resize).
    pub fn invalidate(&mut self)
        ensures
            *final(self) == (App { last_fp: None, ..*old(self) }),
    {
        self.last_fp = None;
    }

    // ---- hotkeys and events -----------------------------------------------

    /// The application after a hotkey.
    pub open spec fn after_hotkey(self, hk: Hotkey) -> App<T> {
        match hk {
            Hotkey::ToggleEnabled => App { enabled: !self.enabled, ..self },
            Hotkey::ToggleEditing => App { editing: !self.editing, edit_drag: None, ..self },
            Hotkey::ToggleOutline => App { show_region: !self.show_region, ..self },
            Hotkey::RegionFull => App {
                region: region::spec_full(self.win_w, self.win_h),
                ..self
            },
            Hotkey::Quit => App { quit: true, ..self },
        }
    }

    /// Act on a hotkey.
    pub fn apply_hotkey(&mut self, hk: Hotkey)
        ensures
            *final(self) == old(self).after_hotkey(hk),
    {
        match hk {
            Hotkey::ToggleEnabled => {
                self.enabled = !self.enabled;
            },
            Hotkey::ToggleEditing => {
                self.editing = !self.editing;
                self.edit_drag = None;
            },
            Hotkey::ToggleOutline => {
                self.show_region = !self.show_region;
            },
            Hotkey::RegionFull => {
                self.region = full(self.win_w, self.win_h);
            },
            Hotkey::Quit => {
                self.quit = true;
            },
        }
    }

    /// The application after a raw input event that arrived at `now`.
    pub open spec fn after_event(self, ev: EventView, now: u64) -> App<T> {
        App {
            last_pen_at: if ev is Pen {
                Some(now)
            } else {
                self.last_pen_at
            },
            left_down: match ev {
                EventView::MouseButton { left, right, down } => if left {
                    down
                } else {
                    self.left_down
                },
                _ => self.left_down,
            },
            raw: self.raw.applied(ev),
            ..self
        }
    }

    /// Take in a raw input event that arrived at `now`: a pen event starts the
    /// pen mode over, a left button event is remembered for region editing.
    pub fn apply_event(&mut self, ev: &InputEvent, now: u64)
        requires
            old(self).raw.fits(ev@),
        ensures
            *final(self) == old(self).after_event(ev@, now),
    {
        match ev {
            InputEvent::Pen { .. } => {
                self.last_pen_at = Some(now);
            },
            InputEvent::MouseButton { left, down, .. } => {
                if *left {
                    self.left_down = *down;
                }
            },
            _ => {},
        }
        self.raw.apply(ev);
    }

    // ---- target-window following ------------------------------------------

    /// Should the target be searched for? Only while its handle is not known.
    pub fn wants_search(&self) -> (r: bool)
        ensures
            r == (self.target_window is Some && self.target_hwnd == 0),
    {
        self.target_window.is_some() && self.target_hwnd == 0
    }

    /// The handle of the target, after a search found `found`; zero if it is
    /// not known.
    pub open spec fn spec_target(self, found: Option<usize>) -> usize {
        if self.target_window is None {
            0
        } else if self.target_hwnd != 0 {
            self.target_hwnd
        } else {
            match found {
                Some(h) => h,
                None => 0,
            }
        }
    }

    /// The handle of the target, after a search found `found`; zero if it is
    /// not known.
    pub fn target(&self, found: Option<usize>) -> (r: usize)
        ensures
            r == self.spec_target(found),
    {
        if self.target_window.is_none() {
            0
        } else if self.target_hwnd != 0 {
            self.target_hwnd
        } else {
            match found {
                Some(h) => h,
                None => 0,
            }
        }
    }

    /// Is there a target on the screen to cover?
    pub open spec fn sees_target(
        self,
        found: Option<usize>,
        iconic: bool,
        rect: Option<(i32, i32, i32, i32)>,
    ) -> bool {
        self.spec_target(found) != 0 && !iconic && rect is Some
    }

    /// Does the overlay window have to be moved to the target?
    pub open spec fn must_move(
        self,
        found: Option<usize>,
        iconic: bool,
        rect: Option<(i32, i32, i32, i32)>,
    ) -> bool {
        self.sees_target(found, iconic, rect) && self.last_target_rect != rect
    }

    /// The application after it let go of its target.
    pub open spec fn detached(self) -> App<T> {
        App {
            window_follow_active: false,
            region_initialized_for_target: false,
            last_target_rect: None,
            win_origin: (T::spec_int(0), T::spec_int(0)),
            ..self
        }
    }

    /// The application after it was placed over a target at `(l, t, r, b)`. The
    /// first time, the region becomes the whole target.
    pub open spec fn placed(self, l: i32, t: i32, r: i32, b: i32) -> App<T> {
        let s = render::effective_scale(self.scale);
        let w = T::spec_int((r - l) as i64).spec_over(s);
        let h = T::spec_int((b - t) as i64).spec_over(s);
        App {
            last_target_rect: Some((l, t, r, b)),
            win_origin: (T::spec_int(l as i64), T::spec_int(t as i64)),
            win_w: w,
            win_h: h,
            region_initialized_for_target: true,
            region: if self.region_initialized_for_target {
                self.region
            } else {
                region::spec_full(w, h)
            },
            ..self
        }
    }

    /// The application after looking for its target: a search found `found`,
    /// and the target, if it is known, is minimized or has the rectangle
    /// `rect`. A target without a rectangle is gone, and is searched for anew;
    /// a minimized one is kept in mind.
    pub open spec fn after_follow(
        self,
        found: Option<usize>,
        iconic: bool,
        rect: Option<(i32, i32, i32, i32)>,
    ) -> App<T> {
        let hwnd = self.spec_target(found);
        let here = App { target_hwnd: hwnd, ..self };
        if self.sees_target(found, iconic, rect) {
            let on = App { window_follow_active: true, ..here };
            if self.last_target_rect != rect {
                let (l, t, r, b) = rect.unwrap();
                on.placed(l, t, r, b)
            } else {
                on
            }
        } else if self.target_window is None {
            if self.window_follow_active {
                here.detached()
            } else {
                self
            }
        } else if hwnd != 0 && !iconic {
            let gone = App { target_hwnd: 0, last_target_rect: None, ..here };
            if self.window_follow_active {
                gone.detached()
            } else {
                gone
            }
        } else if self.window_follow_active {
            here.detached()
        } else {
            here
        }
    }

    /// What that asks of the overlay window: it leaves fullscreen when it
    /// starts to follow and enters it when it lets go, with its styles applied
    /// anew, and is moved whenever the target has moved.
    pub open spec fn follow_action(
        self,
        found: Option<usize>,
        iconic: bool,
        rect: Option<(i32, i32, i32, i32)>,
    ) -> FollowAction {
        let sees = self.sees_target(found, iconic, rect);
        let switched = sees != self.window_follow_active;
        FollowAction {
            fullscreen: if switched {
                Some(!sees)
            } else {
                None
            },
            polish: if switched && self.native_hwnd != 0 {
                Some(self.native_hwnd)
            } else {
                None
            },
            place: if self.must_move(found, iconic, rect) {
                let (l, t, r, b) = rect.unwrap();
                Some(
                    Placement {
                        left: l,
                        top: t,
                        width: (r - l) as i32,
                        height: (b - t) as i32,
                    },
                )
            } else {
                None
            },
        }
    }

    fn detach(&mut self)
        ensures
            *final(self) == old(self).detached(),
    {
        let zero = T::from_int(0);
        self.window_follow_active = false;
        self.region_initialized_for_target = false;
        self.last_target_rect = None;
        self.win_origin = (zero, zero);
    }

    /// The window whose styles are applied anew after a fullscreen switch.
    fn polish_window(&self) -> (r: Option<usize>)
        ensures
            r == (if self.native_hwnd != 0 {
                Some(self.native_hwnd)
            } else {
                None
            }),
    {
        if self.native_hwnd != 0 {
            Some(self.native_hwnd)
        } else {
            None
        }
    }

    /// Attach the overlay to its target window, or let go of it. Without a
    /// target the overlay stays a click-through layer.
    pub fn update_target_window(
        &mut self,
        found: Option<usize>,
        iconic: bool,
        rect: Option<(i32, i32, i32, i32)>,
    ) -> (action: FollowAction)
        requires
            old(self).must_move(found, iconic, rect) ==> (rect matches Some((l, t, r, b))
                && i32::MIN <= r - l <= i32::MAX && i32::MIN <= b - t <= i32::MAX),
        ensures
            *final(self) == old(self).after_follow(found, iconic, rect),
            action == old(self).follow_action(found, iconic, rect),
            old(self).wf() ==> final(self).wf(),
    {
        let mut action = FollowAction { fullscreen: None, polish: None, place: None };
        if self.target_window.is_none() {
            if self.window_follow_active {
                action.fullscreen = Some(true);
                action.polish = self.polish_window();
                self.detach();
                self.target_hwnd = 0;
            }
            return action;
        }
        self.target_hwnd = self.target(found);
        if self.target_hwnd == 0 || iconic {
            if self.window_follow_active {
                action.fullscreen = Some(true);
                action.polish = self.polish_window();
                self.detach();
            }
            return action;
        }
        match rect {
            Some((l, t, r, b)) => {
                if !self.window_follow_active {
                    self.window_follow_active = true;
                    action.fullscreen = Some(false);
                    action.polish = self.polish_window();
                }
                let moved = match self.last_target_rect {
                    Some((l0, t0, r0, b0)) => !(l0 == l && t0 == t && r0 == r && b0 == b),
                    None => true,
                };
                if moved {
                    self.last_target_rect = Some((l, t, r, b));
                    let (width, height) = (r - l, b - t);
                    action.place = Some(Placement { left: l, top: t, width, height });
                    let scale = self.scale.larger(from_ratio(1, 10));
                    self.win_origin = (T::from_int(l as i64), T::from_int(t as i64));
                    self.win_w = T::from_int(width as i64).over(scale);
                    self.win_h = T::from_int(height as i64).over(scale);
                    if !self.region_initialized_for_target {
                        self.region_initialized_for_target = true;
                        self.region = full(self.win_w, self.win_h);
                    }
                }
            },
            None => {
                self.target_hwnd = 0;
                self.last_target_rect = None;
                if self.window_follow_active {
                    action.fullscreen = Some(true);
                    action.polish = self.polish_window();
                    self.detach();
                }
            },
        }
        action
    }

    // ---- pointer ----------------------------------------------------------

    /// The pointer in window-local logical pixels: its global position is the
    /// one that the hook stored, else the polled one, else the origin.
    pub open spec fn spec_pointer_local(
        self,
        last: Option<(i32, i32)>,
        polled: Option<(i32, i32)>,
    ) -> (T, T) {
        let (gx, gy) = match last {
            Some((x, y)) => (x as i64, y as i64),
            None => match polled {
                Some((x, y)) => (x as i64, y as i64),
                None => (0i64, 0i64),
            },
        };
        let s = render::effective_scale(self.scale);
        (
            T::spec_int(gx).spec_minus(self.win_origin.0).spec_over(s),
            T::spec_int(gy).spec_minus(self.win_origin.1).spec_over(s),
        )
    }

    /// Global pointer (physical pixels) to window-local logical position.
    pub fn pointer_local(&self, last: Option<(i32, i32)>, polled: Option<(i32, i32)>) -> (r: (T, T))
        ensures
            r == self.spec_pointer_local(last, polled),
    {
        let (gx, gy) = match last {
            Some((x, y)) => (x as i64, y as i64),
            None => match polled {
                Some((x, y)) => (x as i64, y as i64),
                None => (0i64, 0i64),
            },
        };
        let s = self.scale.larger(from_ratio(1, 10));
        (
            T::from_int(gx).minus(self.win_origin.0).over(s),
            T::from_int(gy).minus(self.win_origin.1).over(s),
        )
    }

    // ---- region editing ---------------------------------------------------

    /// The drag that goes on with the pointer at `(px, py)`: a release ends it,
    /// and a press that grabs something starts one where there is none.
    pub open spec fn drag_at(self, px: T, py: T) -> Option<EditDrag<T>> {
        if !self.left_down && self.prev_left_down {
            None
        } else if self.edit_drag is None && self.left_down && !self.prev_left_down {
            match self.region.grabbed(px, py) {
                Some(mode) => Some(EditDrag { mode, sx: px, sy: py, region: self.region }),
                None => None,
            }
        } else {
            self.edit_drag
        }
    }

    /// The application after editing with the pointer at `(px, py)`. A drag
    /// sets the region, except where it leads back to the region it started
    /// from.
    pub open spec fn after_edit(self, px: T, py: T) -> App<T> {
        let drag = self.drag_at(px, py);
        App {
            prev_left_down: self.left_down,
            edit_drag: drag,
            region: match drag {
                Some(d) => {
                    let nr = d.spec_dragged(px, py, self.win_w, self.win_h);
                    if nr.spec_equals(d.region) {
                        self.region
                    } else {
                        nr
                    }
                },
                None => self.region,
            },
            ..self
        }
    }

    /// The application after editing with the pointer at each of `points` in
    /// turn.
    pub open spec fn after_edits(self, points: Seq<(T, T)>) -> App<T>
        decreases points.len(),
    {
        if points.len() == 0 {
            self
        } else {
            let (px, py) = points.last();
            self.after_edits(points.drop_last()).after_edit(px, py)
        }
    }

    /// Edit the region by a mouse drag, with the pointer at `p`.
    pub fn update_edit(&mut self, p: (T, T))
        ensures
            *final(self) == old(self).after_edit(p.0, p.1),
    {
        let (px, py) = p;
        let down = self.left_down;
        let pressed = down && !self.prev_left_down;
        let released = !down && self.prev_left_down;
        self.prev_left_down = down;

        if released {
            self.edit_drag = None;
            return;
        }
        if self.edit_drag.is_none() && pressed {
            if let Some(mode) = self.region.grab_mode(px, py) {
                self.edit_drag = Some(EditDrag { mode, sx: px, sy: py, region: self.region });
            }
        }
        if let Some(d) = self.edit_drag {
            let nr = d.dragged(px, py, self.win_w, self.win_h);
            if !nr.equals(&d.region) {
                self.region = nr;
            }
        }
    }

    // ---- decisions --------------------------------------------------------

    /// Is the pointer in the region of a followed target?
    pub open spec fn in_region(self, px: T, py: T) -> bool {
        self.window_follow_active && self.region.spec_contains(px, py)
    }

    /// Since when the pointer has been out of the region, if it is found
    /// inside or not at `now`.
    pub open spec fn out_since(self, inside: bool, now: u64) -> Option<u64> {
        if inside {
            None
        } else if self.last_out_region is Some {
            self.last_out_region
        } else {
            Some(now)
        }
    }

    /// Does the pointer count as in the region at `now`? It does so for a grace
    /// period after it has left.
    pub open spec fn counts_as_inside(inside: bool, out_since: Option<u64>, now: u64) -> bool {
        inside || (out_since matches Some(t) && elapsed(now, t) < GRACE_NS)
    }

    /// Is the pen in use at `now`?
    pub open spec fn spec_pen_active(self, now: u64) -> bool {
        self.last_pen_at matches Some(t) && elapsed(now, t) < PEN_ACTIVE_NS
    }

    /// Does the overlay own the hit-testing? Only while it is enabled, not
    /// edited, follows a target, has the pointer inside and sees no pen.
    pub open spec fn spec_owning(self, inside: bool, pen_active: bool) -> bool {
        self.enabled && !self.editing && self.window_follow_active && inside && !pen_active
    }

    /// Is the overlay click-through?
    pub open spec fn spec_passthrough(self, inside: bool, pen_active: bool) -> bool {
        if !self.window_follow_active {
            true
        } else if self.editing {
            false
        } else {
            pen_active || !self.spec_owning(inside, pen_active)
        }
    }

    /// Note whether the pointer is in the region at `now`.
    fn track_region(&mut self, inside: bool, now: u64)
        ensures
            *final(self) == (App {
                last_out_region: old(self).out_since(inside, now),
                ..*old(self)
            }),
    {
        if inside {
            self.last_out_region = None;
        } else if self.last_out_region.is_none() {
            self.last_out_region = Some(now);
        }
    }

    /// Is the pen in use at `now`? While it is, the overlay must not own the
    /// input: the app below needs the real stroke.
    pub fn pen_active(&self, now: u64) -> (r: bool)
        ensures
            r == self.spec_pen_active(now),
    {
        match self.last_pen_at {
            Some(t) => elapsed_ns(now, t) < PEN_ACTIVE_NS,
            None => false,
        }
    }

    /// The mode word of the status text.
    pub open spec fn status_mode(self, owning: bool, pen_active: bool) -> Seq<char> {
        if self.editing {
            "영역편집"@
        } else if pen_active {
            "펜"@
        } else if owning {
            "커서"@
        } else {
            "대기"@
        }
    }

    /// The status text.
    pub open spec fn spec_status(self, owning: bool, pen_active: bool) -> Seq<char> {
        "["@ + (match self.target_window {
            Some(t) => t@,
            None => ""@,
        }) + "] "@ + self.status_mode(owning, pen_active) + " "@ + (if self.enabled {
            "ON"@
        } else {
            "OFF"@
        }) + status_help()
    }

    /// The status text: the target, the mode, whether the overlay is enabled,
    /// and the hotkeys.
    pub fn status_text(&self, owning: bool, pen_active: bool) -> (r: String)
        ensures
            r@ == self.spec_status(owning, pen_active),
    {
        let mode = if self.editing {
            "영역편집"
        } else if pen_active {
            "펜"
        } else if owning {
            "커서"
        } else {
            "대기"
        };
        let on = if self.enabled {
            "ON"
        } else {
            "OFF"
        };
        let mut s = "[".to_owned();
        match &self.target_window {
            Some(t) => {
                s.append(t.as_str());
            },
            None => {
                s.append("");
            },
        }
        s.append("] ");
        s.append(mode);
        s.append(" ");
        s.append(on);
        s.append("  |  Ctrl+Shift C:on/off R:영역 O:윤곽 0:전체 Q:종료 Esc:종료");
        s
    }

    // ---- per-frame driver -------------------------------------------------

    /// The application after the pointer at `(px, py)` was taken in: whether it
    /// is in the region is noted, then the region is edited.
    pub open spec fn after_pointer(self, px: T, py: T, left_at: u64) -> App<T> {
        let noted = App {
            last_out_region: self.out_since(self.in_region(px, py), left_at),
            ..self
        };
        if self.editing {
            noted.after_edit(px, py)
        } else {
            noted
        }
    }

    /// Does the pointer at `(px, py)` count as in the region during a tick?
    pub open spec fn tick_inside(self, px: T, py: T, clock: TickClock) -> bool {
        let inside = self.in_region(px, py);
        App::<T>::counts_as_inside(inside, self.out_since(inside, clock.left_at), clock.grace_at)
    }

    /// Does `fp` describe the frame of this application?
    pub open spec fn is_frame(self, fp: Fingerprint<T>, inside: bool, pen_active: bool) -> bool {
        &&& fp.enabled == self.enabled
        &&& fp.editing == self.editing
        &&& fp.show_region == self.show_region
        &&& fp.owning == self.spec_owning(inside, pen_active)
        &&& fp.passthrough == self.spec_passthrough(inside, pen_active)
        &&& fp.pen_active == pen_active
        &&& fp.region == self.region
        &&& fp.status@ == self.spec_status(fp.owning, pen_active)
    }

    /// Advance the state machine, after hotkeys, events and the target window
    /// have been taken in. `last` is the pointer position that the hook
    /// stored, `polled` the one asked from the system.
    ///
    /// Says what the platform has to do, and whether the overlay content
    /// (region, status, modes) changed and should be redrawn.
    pub fn tick(
        &mut self,
        last: Option<(i32, i32)>,
        polled: Option<(i32, i32)>,
        clock: TickClock,
    ) -> (out: TickOutcome)
        ensures
            ({
                let (px, py) = old(self).spec_pointer_local(last, polled);
                let inside = old(self).tick_inside(px, py, clock);
                let pen = old(self).spec_pen_active(clock.pen_at);
                let owning = old(self).spec_owning(inside, pen);
                let passthrough = old(self).spec_passthrough(inside, pen);
                let moved = old(self).after_pointer(px, py, clock.left_at);
                &&& *final(self) == (App {
                    last_passthrough: Some(passthrough),
                    status_cache: final(self).status_cache,
                    last_fp: final(self).last_fp,
                    ..moved
                })
                &&& final(self).status_cache@ == old(self).spec_status(owning, pen)
                &&& final(self).last_fp matches Some(fp) && moved.is_frame(fp, inside, pen)
                &&& out.passthrough == (if old(self).last_passthrough != Some(passthrough)
                    && old(self).native_hwnd != 0 {
                    Some((old(self).native_hwnd, passthrough))
                } else {
                    None
                })
                &&& out.forwarding == owning
                &&& out.cursor == (if owning {
                    CursorRequest::Custom(old(self).hcursor)
                } else if old(self).editing {
                    CursorRequest::Arrow
                } else {
                    CursorRequest::Leave
                })
                &&& out.dirty == !(old(self).last_fp matches Some(fp) && fp.spec_same(
                    final(self).last_fp.unwrap(),
                ))
            }),
            old(self).wf() ==> final(self).wf(),
    {
        let (plx, ply) = self.pointer_local(last, polled);
        let in_region = self.window_follow_active && self.region.contains(plx, ply);
        self.track_region(in_region, clock.left_at);
        let inside = in_region || match self.last_out_region {
            Some(t) => elapsed_ns(clock.grace_at, t) < GRACE_NS,
            None => false,
        };
        let pen_active = self.pen_active(clock.pen_at);
        if self.editing {
            self.update_edit((plx, ply));
        }
        let overlay_on = self.enabled && !self.editing && self.window_follow_active;
        let owning = overlay_on && inside && !pen_active;
        let passthrough = if !self.window_follow_active {
            true
        } else if self.editing {
            false
        } else if pen_active {
            true
        } else {
            !owning
        };
        let changed = match self.last_passthrough {
            Some(p) => p != passthrough,
            None => true,
        };
        let mut switch: Option<(usize, bool)> = None;
        if changed {
            self.last_passthrough = Some(passthrough);
            if self.native_hwnd != 0 {
                switch = Some((self.native_hwnd, passthrough));
            }
        }
        let cursor = if owning {
            CursorRequest::Custom(self.hcursor)
        } else if self.editing {
            CursorRequest::Arrow
        } else {
            CursorRequest::Leave
        };
        self.status_cache = self.status_text(owning, pen_active);
        let fp = Fingerprint {
            enabled: self.enabled,
            editing: self.editing,
            show_region: self.show_region,
            owning,
            passthrough,
            pen_active,
            region: self.region,
            status: self.status_cache.clone(),
        };
        let dirty = match &self.last_fp {
            Some(prev) => !prev.same(&fp),
            None => true,
        };
        self.last_fp = Some(fp);
        TickOutcome { passthrough: switch, forwarding: owning, cursor, dirty }
    }
}

// ---------------------------------------------------------------------------
// Laws
// ---------------------------------------------------------------------------

impl<T: Coord> App<T> {
    /// Is the region, and the one that a drag in progress started from, at
    /// least of the minimum size?
    pub open spec fn has_minimum(self) -> bool {
        &&& region::minimum_size(self.region)
        &&& self.edit_drag matches Some(d) ==> region::minimum_size(d.region)
    }

    /// Is the top-left corner of the region inside the window, with room for
    /// the minimum region where the window has it?
    pub open spec fn has_corner_inside(self) -> bool {
        region::corner_inside(self.region, self.win_w, self.win_h)
    }

    /// Has a drag that moves the box `r` begun, with the region still of that
    /// size and inside the window?
    pub open spec fn is_moving(self, r: RectF<T>) -> bool {
        &&& self.left_down && self.prev_left_down
        &&& self.edit_drag matches Some(d) && d.mode == EditMode::Move && d.region == r
        &&& self.region.w == r.w && self.region.h == r.h
        &&& region::box_inside(self.region, self.win_w, self.win_h)
    }
}

/// The first window size sets the region of a fresh application to the whole
/// window, and once it is not empty a later size leaves it alone.
pub proof fn law_first_size_fills_region<T: Coord>(app: App<T>, w: T, h: T, w2: T, h2: T)
    requires
        T::spec_int(0).spec_at_most(T::spec_int(0)),
        !app.window_follow_active,
        app.region == region::spec_full(T::spec_int(0), T::spec_int(0)),
    ensures
        app.after_size(w, h).region == region::spec_full(w, h),
        !w.spec_at_most(T::spec_int(0)) ==> app.after_size(w, h).after_size(w2, h2).region
            == region::spec_full(w, h),
{
}

/// Owning the hit-testing and being click-through exclude each other, and
/// while a target is followed and not edited the overlay is always in one of
/// the two modes.
pub proof fn law_owning_or_click_through<T: Coord>(app: App<T>, inside: bool, pen_active: bool)
    ensures
        app.spec_owning(inside, pen_active) ==> !app.spec_passthrough(inside, pen_active),
        app.window_follow_active && !app.editing ==> app.spec_passthrough(inside, pen_active)
            == !app.spec_owning(inside, pen_active),
{
}

/// While the pen is in use, the overlay never owns the input: outside region
/// editing it is click-through, so the app below gets the real stroke.
pub proof fn law_pen_reaches_the_app_below<T: Coord>(app: App<T>, inside: bool)
    ensures
        !app.spec_owning(inside, true),
        !app.editing ==> app.spec_passthrough(inside, true),
{
}

/// Without a followed target the overlay is a click-through layer that owns
/// nothing, whatever else is set.
pub proof fn law_no_target_is_click_through<T: Coord>(app: App<T>, inside: bool, pen_active: bool)
    requires
        !app.window_follow_active,
    ensures
        app.spec_passthrough(inside, pen_active),
        !app.spec_owning(inside, pen_active),
{
}

/// Inside the region of a followed target an enabled overlay owns the
/// hit-testing, unless it is edited or the pen is in use.
pub proof fn law_inside_is_owned<T: Coord>(app: App<T>, px: T, py: T, clock: TickClock)
    requires
        app.in_region(px, py),
        app.enabled,
        !app.editing,
        !app.spec_pen_active(clock.pen_at),
    ensures
        app.spec_owning(app.tick_inside(px, py, clock), app.spec_pen_active(clock.pen_at)),
        !app.spec_passthrough(app.tick_inside(px, py, clock), app.spec_pen_active(clock.pen_at)),
{
}

/// Outside the region, once the grace period is over, an overlay that is not
/// edited is click-through again, so the apps below keep their own cursor.
pub proof fn law_outside_is_click_through<T: Coord>(app: App<T>, px: T, py: T, clock: TickClock)
    requires
        !app.in_region(px, py),
        !app.editing,
        app.last_out_region matches Some(t) && t + GRACE_NS <= clock.grace_at,
    ensures
        !app.tick_inside(px, py, clock),
        forall|pen: bool| #[trigger] app.spec_passthrough(app.tick_inside(px, py, clock), pen),
{
}

/// Jitter at the boundary does not let go: within the grace period after the
/// pointer has left, it counts as inside; and as soon as it is back, the period
/// starts anew.
pub proof fn law_grace_period<T: Coord>(app: App<T>, px: T, py: T, clock: TickClock)
    ensures
        app.last_out_region matches Some(t) && clock.grace_at < t + GRACE_NS ==> app.tick_inside(
            px,
            py,
            clock,
        ),
        app.in_region(px, py) ==> app.out_since(true, clock.left_at) is None && app.tick_inside(
            px,
            py,
            clock,
        ),
        app.last_out_region is None && clock.grace_at < clock.left_at + GRACE_NS
            ==> app.tick_inside(px, py, clock),
{
}

/// The pen mode lasts for its decay time after the last pen event, and no
/// longer.
pub proof fn law_pen_decay<T: Coord>(app: App<T>, ev: EventView, at: u64, now: u64)
    requires
        ev is Pen,
        at <= now,
    ensures
        app.after_event(ev, at).spec_pen_active(now) <==> now < at + PEN_ACTIVE_NS,
{
}

/// Each toggle undoes itself; only a drag in progress is lost when editing is
/// switched.
pub proof fn law_toggles_undo_themselves<T: Coord>(app: App<T>)
    ensures
        app.after_hotkey(Hotkey::ToggleEnabled).after_hotkey(Hotkey::ToggleEnabled) == app,
        app.after_hotkey(Hotkey::ToggleOutline).after_hotkey(Hotkey::ToggleOutline) == app,
        app.after_hotkey(Hotkey::ToggleEditing).after_hotkey(Hotkey::ToggleEditing) == (App {
            edit_drag: None,
            ..app
        }),
{
}

/// Hotkeys, events and pointer motion never touch what the overlay knows of
/// its target: a well-formed application stays well formed.
pub proof fn law_input_keeps_target<T: Coord>(
    app: App<T>,
    hk: Hotkey,
    ev: EventView,
    px: T,
    py: T,
    now: u64,
)
    requires
        app.wf(),
    ensures
        app.after_hotkey(hk).wf(),
        app.after_event(ev, now).wf(),
        app.after_edit(px, py).wf(),
        app.after_pointer(px, py, now).wf(),
{
}

/// The overlay follows exactly while its target is on the screen, and sits at
/// the target's corner then; the first time its region is the whole target,
/// and later moves leave the region alone.
pub proof fn law_overlay_follows_target<T: Coord>(
    app: App<T>,
    found: Option<usize>,
    iconic: bool,
    rect: Option<(i32, i32, i32, i32)>,
)
    requires
        app.wf(),
    ensures
        ({
            let next = app.after_follow(found, iconic, rect);
            &&& next.wf()
            &&& next.window_follow_active == app.sees_target(found, iconic, rect)
            &&& next.window_follow_active ==> next.last_target_rect == rect
            &&& next.window_follow_active && !app.window_follow_active ==> next.region
                == region::spec_full(next.win_w, next.win_h)
            &&& app.window_follow_active ==> next.region == app.region
            &&& !next.window_follow_active ==> next.region == app.region
        }),
{
}

/// When the target is cleared, an overlay that followed it returns to
/// fullscreen and forgets the target.
pub proof fn law_cleared_target_returns_to_fullscreen<T: Coord>(
    app: App<T>,
    found: Option<usize>,
    iconic: bool,
    rect: Option<(i32, i32, i32, i32)>,
)
    requires
        app.wf(),
        app.window_follow_active,
        app.target_window is None,
    ensures
        app.follow_action(found, iconic, rect).fullscreen == Some(true),
        app.follow_action(found, iconic, rect).place is None,
        ({
            let next = app.after_follow(found, iconic, rect);
            &&& !next.window_follow_active
            &&& next.target_hwnd == 0
            &&& next.last_target_rect is None
            &&& next.win_origin == (T::spec_int(0), T::spec_int(0))
        }),
{
}

/// A target that has not moved asks for nothing and changes nothing.
pub proof fn law_still_target_asks_nothing<T: Coord>(
    app: App<T>,
    found: Option<usize>,
    rect: (i32, i32, i32, i32),
)
    requires
        app.wf(),
        app.window_follow_active,
        app.target_window is Some,
        app.last_target_rect == Some(rect),
    ensures
        app.after_follow(found, false, Some(rect)) == app,
        app.follow_action(found, false, Some(rect)) == (FollowAction {
            fullscreen: None,
            polish: None,
            place: None,
        }),
{
}

/// A drag ends when the button is released, and until a button goes down
/// nothing is edited.
pub proof fn law_release_ends_drag<T: Coord>(app: App<T>, px: T, py: T)
    ensures
        !app.left_down && app.prev_left_down ==> app.after_edit(px, py).edit_drag is None
            && app.after_edit(px, py).region == app.region,
        app.edit_drag is None && !app.left_down ==> app.after_edit(px, py).edit_drag is None
            && app.after_edit(px, py).region == app.region,
{
}

/// No amount of editing makes the region smaller than the minimum: if the
/// region, and the one that a drag in progress started from, are large enough,
/// they stay so.
pub proof fn law_editing_keeps_minimum<T: Coord>(app: App<T>, px: T, py: T)
    requires
        coord::is_ordered::<T>(),
        app.has_minimum(),
    ensures
        app.after_edit(px, py).has_minimum(),
{
    if let Some(d) = app.drag_at(px, py) {
        region::law_drag_keeps_minimum(d, px, py, app.win_w, app.win_h);
    }
}

/// No amount of editing takes the top-left corner of the region out of the
/// window or makes the region smaller than the minimum.
pub proof fn law_editing_keeps_corner<T: Coord>(app: App<T>, points: Seq<(T, T)>)
    requires
        coord::is_ordered::<T>(),
        app.has_minimum(),
        app.has_corner_inside(),
    ensures
        app.after_edits(points).has_minimum(),
        app.after_edits(points).has_corner_inside(),
        app.after_edits(points).win_w == app.win_w,
        app.after_edits(points).win_h == app.win_h,
    decreases points.len(),
{
    if points.len() > 0 {
        let (px, py) = points.last();
        let before = app.after_edits(points.drop_last());
        law_editing_keeps_corner(app, points.drop_last());
        law_editing_keeps_minimum(before, px, py);
        if let Some(d) = before.drag_at(px, py) {
            region::law_drag_starts_in_window(d, px, py, app.win_w, app.win_h);
        }
    }
}

/// Moving never resizes the region and never takes it out of the window: after
/// a press that grabs a region which fits the window, and for as long as the
/// button is held, whatever way the pointer goes.
pub proof fn law_moving_keeps_size_and_window<T: Coord>(app: App<T>, points: Seq<(T, T)>)
    requires
        coord::is_ordered::<T>(),
        app.left_down && !app.prev_left_down && app.edit_drag is None,
        points.len() > 0,
        app.region.grabbed(points[0].0, points[0].1) == Some(EditMode::Move),
        region::box_fits(app.region, app.win_w, app.win_h),
    ensures
        app.after_edits(points).is_moving(app.region),
        app.after_edits(points).win_w == app.win_w,
        app.after_edits(points).win_h == app.win_h,
    decreases points.len(),
{
    let (px, py) = points.last();
    let before = app.after_edits(points.drop_last());
    if points.len() > 1 {
        law_moving_keeps_size_and_window(app, points.drop_last());
    } else {
        assert(points.drop_last().len() == 0);
        assert(before == app);
    }
    let d = before.drag_at(px, py).unwrap();
    region::law_move_stays_inside(d, px, py, app.win_w, app.win_h);
}

/// Frames that show the same state are not drawn again: two fingerprints of one
/// application in one mode are the same, if every number is written down in one
/// way only.
pub proof fn law_unchanged_frame_is_not_redrawn<T: Coord>(
    app: App<T>,
    a: Fingerprint<T>,
    b: Fingerprint<T>,
    inside: bool,
    pen_active: bool,
)
    requires
        forall|x: T| #[trigger] x.spec_reads_as(x),
        app.is_frame(a, inside, pen_active),
        app.is_frame(b, inside, pen_active),
    ensures
        a.spec_same(b),
{
}

/// Every change of the overlay content is drawn: frames that show the same
/// agree in all modes, in the region as it is written down and in the status
/// text.
pub proof fn law_every_change_is_redrawn<T: Coord>(
    x: App<T>,
    y: App<T>,
    a: Fingerprint<T>,
    b: Fingerprint<T>,
    inside: (bool, bool),
    pen: (bool, bool),
)
    requires
        x.is_frame(a, inside.0, pen.0),
        y.is_frame(b, inside.1, pen.1),
        a.spec_same(b),
    ensures
        x.enabled == y.enabled && x.editing == y.editing && x.show_region == y.show_region,
        x.region.spec_reads_as(y.region),
        pen.0 == pen.1,
        x.spec_owning(inside.0, pen.0) == y.spec_owning(inside.1, pen.1),
        x.spec_passthrough(inside.0, pen.0) == y.spec_passthrough(inside.1, pen.1),
        x.spec_status(x.spec_owning(inside.0, pen.0), pen.0) == y.spec_status(
            y.spec_owning(inside.1, pen.1),
            pen.1,
        ),
{
}

// ---- following -------------------------------------------------------------

/// A target that is on the screen at another place or in another size than
/// before is covered: the window goes to its rectangle, and the application
/// takes that as its origin and size. The first time, the region becomes the
/// whole window; a region that was set for the target before is kept.
pub proof fn law_moved_target_is_covered<T: Coord>(
    app: App<T>,
    found: Option<usize>,
    l: i32,
    t: i32,
    r: i32,
    b: i32,
)
    requires
        app.target_window is Some,
        app.target_hwnd != 0 || (found matches Some(h) && h != 0),
        app.last_target_rect != Some((l, t, r, b)),
        i32::MIN <= r - l <= i32::MAX,
        i32::MIN <= b - t <= i32::MAX,
    ensures
        ({
            let rect = Some((l, t, r, b));
            let action = app.follow_action(found, false, rect);
            let next = app.after_follow(found, false, rect);
            let s = app.scale.spec_larger(T::spec_int(1).spec_over(T::spec_int(10)));
            &&& action.place matches Some(p) && p.left == l && p.top == t && p.width == r - l
                && p.height == b - t
            &&& next.last_target_rect == rect
            &&& next.win_origin == (T::spec_int(l as i64), T::spec_int(t as i64))
            &&& next.win_w == T::spec_int((r - l) as i64).spec_over(s)
            &&& next.win_h == T::spec_int((b - t) as i64).spec_over(s)
            &&& app.region_initialized_for_target ==> next.region == app.region
            &&& !app.region_initialized_for_target ==> next.region == (RectF {
                x: T::spec_int(0),
                y: T::spec_int(0),
                w: next.win_w,
                h: next.win_h,
            })
        }),
{
}

/// Looking for the target changes what the application knows of the target, its
/// window's place and its region, and nothing else; and without a move not even
/// those two.
pub proof fn law_follow_leaves_the_rest<T: Coord>(
    app: App<T>,
    found: Option<usize>,
    iconic: bool,
    rect: Option<(i32, i32, i32, i32)>,
)
    ensures
        ({
            let next = app.after_follow(found, iconic, rect);
            &&& next == (App {
                target_hwnd: next.target_hwnd,
                last_target_rect: next.last_target_rect,
                window_follow_active: next.window_follow_active,
                region_initialized_for_target: next.region_initialized_for_target,
                win_origin: next.win_origin,
                win_w: next.win_w,
                win_h: next.win_h,
                region: next.region,
                ..app
            })
            &&& iconic || rect is None || app.last_target_rect == rect ==> next.region == app.region
                && next.win_w == app.win_w && next.win_h == app.win_h
        }),
{
}

/// The overlay follows exactly while its target is known, not minimized and has
/// a rectangle. It leaves fullscreen when that begins and returns to it when it
/// ends, each time with its styles applied anew, and it is placed only over a
/// target that has another rectangle than before.
pub proof fn law_following_and_fullscreen<T: Coord>(
    app: App<T>,
    found: Option<usize>,
    iconic: bool,
    rect: Option<(i32, i32, i32, i32)>,
)
    ensures
        ({
            let on = app.target_window is Some && (app.target_hwnd != 0 || (found matches Some(h)
                && h != 0)) && !iconic && rect is Some;
            let next = app.after_follow(found, iconic, rect);
            let action = app.follow_action(found, iconic, rect);
            &&& next.window_follow_active == on
            &&& on && !app.window_follow_active ==> action.fullscreen == Some(false)
            &&& !on && app.window_follow_active ==> action.fullscreen == Some(true)
            &&& on == app.window_follow_active ==> action.fullscreen is None && action.polish
                is None
            &&& on != app.window_follow_active && app.native_hwnd != 0 ==> action.polish == Some(
                app.native_hwnd,
            )
            &&& app.native_hwnd == 0 ==> action.polish is None
            &&& action.place is Some <==> on && app.last_target_rect != rect
            &&& on ==> next.last_target_rect == rect
        }),
{
}

/// What becomes of the target's handle: a known one is kept, an unknown one is
/// the one that the search found, and a target without a rectangle is forgotten
/// unless it is minimized. Without a title there is no target.
pub proof fn law_target_handle<T: Coord>(
    app: App<T>,
    found: Option<usize>,
    iconic: bool,
    rect: Option<(i32, i32, i32, i32)>,
)
    ensures
        ({
            let next = app.after_follow(found, iconic, rect);
            &&& app.target_window is None ==> app.spec_target(found) == 0
            &&& app.target_window is Some && app.target_hwnd != 0 ==> app.spec_target(found)
                == app.target_hwnd
            &&& app.target_window is Some && app.target_hwnd == 0 ==> app.spec_target(found) == (
            match found {
                Some(h) => h,
                None => 0,
            })
            &&& app.target_window is Some && (iconic || rect is Some) ==> next.target_hwnd
                == app.spec_target(found)
            &&& app.target_window is Some && !iconic && rect is None ==> next.target_hwnd == 0
            &&& app.target_window is None && app.window_follow_active ==> next.target_hwnd == 0
            &&& app.target_window is None && !app.window_follow_active ==> next == app
        }),
{
}

/// An overlay that lets go of its target forgets its rectangle, sits at the
/// origin again and takes the next target anew; one that followed none keeps
/// its place.
pub proof fn law_letting_go_clears_the_place<T: Coord>(
    app: App<T>,
    found: Option<usize>,
    iconic: bool,
    rect: Option<(i32, i32, i32, i32)>,
)
    requires
        app.target_window is None || iconic || rect is None || (app.target_hwnd == 0 && (found
            matches Some(h) ==> h == 0)),
    ensures
        ({
            let next = app.after_follow(found, iconic, rect);
            &&& app.window_follow_active ==> next.last_target_rect is None
                && !next.region_initialized_for_target && next.win_origin == (
                T::spec_int(0),
                T::spec_int(0),
            )
            &&& !app.window_follow_active ==> next.win_origin == app.win_origin
                && next.region_initialized_for_target == app.region_initialized_for_target
            &&& next.region == app.region && next.win_w == app.win_w && next.win_h == app.win_h
        }),
{
}

// ---- hotkeys and events ----------------------------------------------------

/// The hotkey for the whole window sets the region to the window, from corner to
/// corner, whatever it was before, and touches nothing else.
pub proof fn law_region_full_covers_the_window<T: Coord>(app: App<T>)
    ensures
        ({
            let next = app.after_hotkey(Hotkey::RegionFull);
            &&& next.region.x == T::spec_int(0) && next.region.y == T::spec_int(0)
            &&& next.region.w == app.win_w && next.region.h == app.win_h
            &&& next == (App { region: next.region, ..app })
        }),
{
}

/// Every toggle turns its own setting over and leaves the others alone; only
/// switching the editing also drops a drag in progress. The quit hotkey, and no
/// other, asks to quit.
pub proof fn law_each_hotkey_has_its_effect<T: Coord>(app: App<T>, hk: Hotkey)
    ensures
        ({
            let next = app.after_hotkey(hk);
            &&& next.enabled != app.enabled <==> hk == Hotkey::ToggleEnabled
            &&& next.editing != app.editing <==> hk == Hotkey::ToggleEditing
            &&& next.show_region != app.show_region <==> hk == Hotkey::ToggleOutline
            &&& next.quit == (app.quit || hk == Hotkey::Quit)
            &&& hk == Hotkey::ToggleEditing ==> next.edit_drag is None
            &&& hk != Hotkey::ToggleEditing ==> next.edit_drag == app.edit_drag
            &&& hk != Hotkey::RegionFull ==> next.region == app.region
            &&& next == (App {
                enabled: next.enabled,
                editing: next.editing,
                show_region: next.show_region,
                quit: next.quit,
                edit_drag: next.edit_drag,
                region: next.region,
                ..app
            })
        }),
{
}

/// Only a pen event is pen use: any other event leaves the pen mode at every
/// moment as it was, and an application that never saw a pen event is never in
/// it.
pub proof fn law_only_the_pen_is_pen_use<T: Coord>(app: App<T>, ev: EventView, at: u64, now: u64)
    ensures
        !(ev is Pen) ==> app.after_event(ev, at).last_pen_at == app.last_pen_at,
        !(ev is Pen) ==> app.after_event(ev, at).spec_pen_active(now) == app.spec_pen_active(now),
        ev is Pen ==> app.after_event(ev, at).last_pen_at == Some(at),
        app.last_pen_at is None ==> !app.spec_pen_active(now),
        app.last_pen_at matches Some(t) ==> (app.spec_pen_active(now) <==> now < t
            + 2_000_000_000),
{
}

/// The left button is down after its press and up after its release; any other
/// event leaves it as it was. An event changes nothing but that, the time of
/// the pen and the snapshot.
pub proof fn law_events_track_the_left_button<T: Coord>(app: App<T>, ev: EventView, at: u64)
    ensures
        ({
            let next = app.after_event(ev, at);
            &&& ev matches EventView::MouseButton { left, right, down } ==> next.left_down == (
            if left {
                down
            } else {
                app.left_down
            })
            &&& !(ev is MouseButton) ==> next.left_down == app.left_down
            &&& next.raw == app.raw.applied(ev)
            &&& next == (App {
                last_pen_at: next.last_pen_at,
                left_down: next.left_down,
                raw: next.raw,
                ..app
            })
        }),
{
}

/// A window size is taken as it is. It becomes the region only where no target
/// is followed and the region is empty, and it changes nothing else.
pub proof fn law_window_size_is_taken<T: Coord>(app: App<T>, w: T, h: T)
    ensures
        ({
            let next = app.after_size(w, h);
            &&& next.win_w == w && next.win_h == h
            &&& app.window_follow_active || !app.region.w.spec_at_most(T::spec_int(0)) ==> next.region
                == app.region
            &&& !app.window_follow_active && app.region.w.spec_at_most(T::spec_int(0))
                ==> next.region == (RectF { x: T::spec_int(0), y: T::spec_int(0), w, h })
            &&& next == (App { win_w: w, win_h: h, region: next.region, ..app })
        }),
{
}

// ---- pointer and ownership -------------------------------------------------

/// The pointer is taken relative to the window's corner and divided by the
/// scale factor, which counts as at least a tenth. The position that the hook
/// stored comes before the polled one; without either it is the origin.
pub proof fn law_pointer_is_window_local<T: Coord>(
    app: App<T>,
    x: i32,
    y: i32,
    polled: Option<(i32, i32)>,
)
    ensures
        ({
            let s = app.scale.spec_larger(T::spec_int(1).spec_over(T::spec_int(10)));
            let local = (
                T::spec_int(x as i64).spec_minus(app.win_origin.0).spec_over(s),
                T::spec_int(y as i64).spec_minus(app.win_origin.1).spec_over(s),
            );
            &&& app.spec_pointer_local(Some((x, y)), polled) == local
            &&& app.spec_pointer_local(None, Some((x, y))) == local
            &&& app.spec_pointer_local(None, None) == app.spec_pointer_local(Some((0, 0)), polled)
        }),
{
}

/// In whole pixels and unscaled, the local position is the distance from the
/// window's corner: moving window and pointer together changes nothing.
pub proof fn law_pointer_moves_with_the_window(
    app: App<i64>,
    x: i32,
    y: i32,
    polled: Option<(i32, i32)>,
)
    requires
        app.scale == 1,
        region::moderate(app.win_origin.0),
        region::moderate(app.win_origin.1),
    ensures
        app.spec_pointer_local(Some((x, y)), polled).0 == x - app.win_origin.0,
        app.spec_pointer_local(Some((x, y)), polled).1 == y - app.win_origin.1,
{
    assert forall|n: int| coord::quotient(n, 1) == n by {
        assert(n / 1 == n && (-n) / 1 == -n);
    }
}

/// During a tick the pointer counts as inside exactly if it is in the rectangle
/// of the region, with a target followed, or was so less than 60 ms ago: the
/// time runs from the first tick that found it outside, and being inside starts
/// it over. What a tick notes of the pointer is that time and, while editing,
/// the edit; nothing else.
pub proof fn law_when_the_pointer_counts_as_inside<T: Coord>(
    app: App<T>,
    px: T,
    py: T,
    clock: TickClock,
)
    ensures
        ({
            let r = app.region;
            let inside = app.window_follow_active && r.x.spec_at_most(px) && px.spec_below(
                r.x.spec_plus(r.w),
            ) && r.y.spec_at_most(py) && py.spec_below(r.y.spec_plus(r.h));
            let since = match app.last_out_region {
                Some(t) => t,
                None => clock.left_at,
            };
            let next = app.after_pointer(px, py, clock.left_at);
            &&& app.tick_inside(px, py, clock) <==> inside || clock.grace_at < since + 60_000_000
            &&& inside ==> next.last_out_region is None
            &&& !inside ==> next.last_out_region == Some(since)
            &&& !app.editing ==> next == (App { last_out_region: next.last_out_region, ..app })
            &&& app.editing ==> next == (App {
                last_out_region: next.last_out_region,
                ..app.after_edit(px, py)
            })
        }),
{
}

/// The overlay owns the hit-testing under five conditions, and each of them
/// counts: it is enabled, it is not edited, it follows a target, the pointer is
/// inside, and no pen is in use.
pub proof fn law_each_condition_of_owning_counts<T: Coord>(
    app: App<T>,
    inside: bool,
    pen_active: bool,
)
    ensures
        app.spec_owning(inside, pen_active) ==> app.enabled && !app.editing
            && app.window_follow_active && inside && !pen_active,
        !app.spec_owning(inside, pen_active) ==> !app.enabled || app.editing
            || !app.window_follow_active || !inside || pen_active,
{
}

/// An overlay over a target catches the input while it is edited and while it
/// owns the hit-testing, and at no other time; without a target it never does.
pub proof fn law_when_input_is_caught<T: Coord>(app: App<T>, inside: bool, pen_active: bool)
    ensures
        !app.spec_passthrough(inside, pen_active) <==> app.window_follow_active && (app.editing || (
        app.enabled && inside && !pen_active)),
{
}

/// The status text names the target, then the mode (editing comes before the
/// pen, the pen before owning), then whether the overlay is on, then the
/// hotkeys.
pub proof fn law_status_text_parts<T: Coord>(app: App<T>, owning: bool, pen_active: bool)
    ensures
        ({
            let title = match app.target_window {
                Some(t) => t@,
                None => ""@,
            };
            let on = if app.enabled {
                "ON"@
            } else {
                "OFF"@
            };
            let help = "  |  Ctrl+Shift C:on/off R:영역 O:윤곽 0:전체 Q:종료 Esc:종료"@;
            let text = app.spec_status(owning, pen_active);
            &&& app.editing ==> text == "["@ + title + "] "@ + "영역편집"@ + " "@ + on + help
            &&& !app.editing && pen_active ==> text == "["@ + title + "] "@ + "펜"@ + " "@ + on
                + help
            &&& !app.editing && !pen_active && owning ==> text == "["@ + title + "] "@ + "커서"@
                + " "@ + on + help
            &&& !app.editing && !pen_active && !owning ==> text == "["@ + title + "] "@ + "대기"@
                + " "@ + on + help
        }),
{
}

// ---- editing ---------------------------------------------------------------

/// A drag begins with the press: what is grabbed then, where and with which
/// region, is kept until the release. Nothing begins while the button is up or
/// was down already, or where nothing is grabbed.
pub proof fn law_drag_lasts_from_press_to_release<T: Coord>(app: App<T>, px: T, py: T)
    ensures
        ({
            let next = app.after_edit(px, py);
            let pressed = app.left_down && !app.prev_left_down;
            let released = !app.left_down && app.prev_left_down;
            &&& next.prev_left_down == app.left_down
            &&& released ==> next.edit_drag is None
            &&& !released && app.edit_drag is Some ==> next.edit_drag == app.edit_drag
            &&& app.edit_drag is None && !pressed ==> next.edit_drag is None
            &&& app.edit_drag is None && pressed ==> (next.edit_drag is Some
                <==> app.region.grabbed(px, py) is Some)
            &&& app.edit_drag is None && pressed ==> (next.edit_drag matches Some(d) ==> Some(
                d.mode,
            ) == app.region.grabbed(px, py) && d.sx == px && d.sy == py && d.region == app.region)
        }),
{
}

/// The region follows the drag in progress: it becomes what the drag leads to,
/// unless that equals the region the drag started from. Without a drag it stays,
/// and editing changes nothing but the region, the drag and the button's last
/// state.
pub proof fn law_region_follows_the_drag<T: Coord>(app: App<T>, px: T, py: T)
    ensures
        ({
            let next = app.after_edit(px, py);
            &&& next.edit_drag is None ==> next.region == app.region
            &&& next.edit_drag matches Some(d) ==> {
                let nr = d.spec_dragged(px, py, app.win_w, app.win_h);
                let back = nr.x.spec_equals(d.region.x) && nr.y.spec_equals(d.region.y)
                    && nr.w.spec_equals(d.region.w) && nr.h.spec_equals(d.region.h);
                next.region == (if back {
                    app.region
                } else {
                    nr
                })
            }
            &&& next == (App {
                prev_left_down: next.prev_left_down,
                edit_drag: next.edit_drag,
                region: next.region,
                ..app
            })
        }),
{
}

/// In whole pixels, while a box that lies in the window is moved, it goes
/// exactly as far as the pointer, as long as that keeps it in the window.
pub proof fn law_moved_box_goes_with_the_pointer(app: App<i64>, d: EditDrag<i64>, px: i64, py: i64)
    requires
        app.edit_drag == Some(d),
        app.left_down,
        d.mode == EditMode::Move,
        region::plain_rect(d.region),
        region::moderate(d.sx) && region::moderate(d.sy) && region::moderate(px)
            && region::moderate(py) && region::moderate(app.win_w) && region::moderate(app.win_h),
        d.region.w >= MIN_REGION && d.region.h >= MIN_REGION,
        0 <= d.region.x + (px - d.sx) <= app.win_w - d.region.w,
        0 <= d.region.y + (py - d.sy) <= app.win_h - d.region.h,
        px != d.sx || py != d.sy,
    ensures
        app.after_edit(px, py).region.x == d.region.x + (px - d.sx),
        app.after_edit(px, py).region.y == d.region.y + (py - d.sy),
        app.after_edit(px, py).region.w == d.region.w,
        app.after_edit(px, py).region.h == d.region.h,
{
}

/// Frames are the same exactly if everything that is shown reads the same.
pub proof fn law_same_frame_reads_the_same<T: Coord>(a: Fingerprint<T>, b: Fingerprint<T>)
    ensures
        a.spec_same(b) <==> a.enabled == b.enabled && a.editing == b.editing && a.show_region
            == b.show_region && a.owning == b.owning && a.passthrough == b.passthrough
            && a.pen_active == b.pen_active && a.region.x.spec_reads_as(b.region.x)
            && a.region.y.spec_reads_as(b.region.y) && a.region.w.spec_reads_as(b.region.w)
            && a.region.h.spec_reads_as(b.region.h) && a.status@ == b.status@,
{
}

/// A frame shows the settings, the modes, the region and the status text of its
/// application.
pub proof fn law_frame_shows_the_application<T: Coord>(
    app: App<T>,
    fp: Fingerprint<T>,
    inside: bool,
    pen_active: bool,
)
    requires
        app.is_frame(fp, inside, pen_active),
    ensures
        fp.enabled == app.enabled && fp.editing == app.editing && fp.show_region
            == app.show_region,
        fp.pen_active == pen_active,
        fp.owning <==> app.enabled && !app.editing && app.window_follow_active && inside
            && !pen_active,
        fp.passthrough <==> !app.window_follow_active || (!app.editing && !fp.owning),
        fp.region == app.region,
        fp.status@ == app.spec_status(fp.owning, pen_active),
{
}

} // verus!
