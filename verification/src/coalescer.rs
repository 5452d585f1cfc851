//! Debounced accumulator for raw input events.

use vstd::prelude::*;

use crate::input::{Contact, EventView, InputEvent, InputSnapshot};

verus! {

/// Merges raw input events that arrive faster than the flush rate: it keeps
/// the latest state and sums deltas, so that a flush only ever emits a handful
/// of events.
pub struct Coalescer {
    /// Latest pointer position since the last flush.
    pub mouse_pos: Option<(i32, i32)>,
    /// Relative motion summed up since the last flush.
    pub raw_delta: (i32, i32),
    /// Button transition flags seen since the last flush.
    pub raw_flags: u16,
    /// Latest raw button state.
    pub raw_buttons: u32,
    /// Wheel motion summed up since the last flush.
    pub wheel: i32,
    /// Latest button transition since the last flush: left, right, down.
    pub button: Option<(bool, bool, bool)>,
    /// Latest pen contact since the last flush.
    pub pen: Option<Contact>,
    /// Latest touch contact since the last flush.
    pub touch: Option<Contact>,
    /// Other HID reports since the last flush.
    pub hid_reports: u64,
}

/// The contents of a list of events.
pub open spec fn event_views(events: Seq<InputEvent>) -> Seq<EventView> {
    Seq::new(events.len(), |i: int| events[i]@)
}

impl Coalescer {
    /// Is there nothing to flush?
    pub open spec fn is_clear(self) -> bool {
        &&& self.mouse_pos is None
        &&& self.raw_delta == (0i32, 0i32)
        &&& self.raw_flags == 0
        &&& self.wheel == 0
        &&& self.button is None
        &&& self.pen is None
        &&& self.touch is None
        &&& self.hid_reports == 0
    }

    /// Is there relative motion or a button transition to report?
    pub open spec fn has_raw_motion(self) -> bool {
        self.raw_delta.0 != 0 || self.raw_delta.1 != 0 || self.raw_flags != 0
    }

    /// The pending pointer position.
    pub open spec fn pending_move(self) -> Seq<EventView> {
        match self.mouse_pos {
            Some((x, y)) => seq![EventView::MouseMove { x, y }],
            None => seq![],
        }
    }

    /// The pending button transition.
    pub open spec fn pending_button(self) -> Seq<EventView> {
        match self.button {
            Some((left, right, down)) => seq![EventView::MouseButton { left, right, down }],
            None => seq![],
        }
    }

    /// The pending relative motion.
    pub open spec fn pending_raw(self) -> Seq<EventView> {
        if self.has_raw_motion() {
            seq![
                EventView::RawMouse {
                    dx: self.raw_delta.0,
                    dy: self.raw_delta.1,
                    flags: self.raw_flags,
                    buttons: self.raw_buttons,
                },
            ]
        } else {
            seq![]
        }
    }

    /// The pending wheel motion.
    pub open spec fn pending_wheel(self) -> Seq<EventView> {
        if self.wheel != 0 {
            seq![EventView::MouseWheel { delta: self.wheel }]
        } else {
            seq![]
        }
    }

    /// The pending pen contact.
    pub open spec fn pending_pen(self) -> Seq<EventView> {
        match self.pen {
            Some(contact) => seq![EventView::Pen { contact }],
            None => seq![],
        }
    }

    /// The pending touch contact.
    pub open spec fn pending_touch(self) -> Seq<EventView> {
        match self.touch {
            Some(contact) => seq![EventView::Touch { contact }],
            None => seq![],
        }
    }

    /// One event stands for all other HID reports, without their bytes.
    pub open spec fn pending_hid(self) -> Seq<EventView> {
        if self.hid_reports > 0 {
            seq![EventView::HidRaw { usage_page: 0, usage: 0, data: Seq::empty() }]
        } else {
            seq![]
        }
    }

    /// The events that a flush emits, in order.
    pub open spec fn pending(self) -> Seq<EventView> {
        self.pending_move() + self.pending_button() + self.pending_raw() + self.pending_wheel()
            + self.pending_pen() + self.pending_touch() + self.pending_hid()
    }

    /// The accumulator after a flush: everything but the button state is gone.
    pub open spec fn flushed(self) -> Coalescer {
        Coalescer {
            mouse_pos: None,
            raw_delta: (0, 0),
            raw_flags: 0,
            raw_buttons: self.raw_buttons,
            wheel: 0,
            button: None,
            pen: None,
            touch: None,
            hid_reports: 0,
        }
    }

    /// Can the sums take in `ev`?
    pub open spec fn takes(self, ev: EventView) -> bool {
        match ev {
            EventView::MouseWheel { delta } => i32::MIN <= self.wheel + delta <= i32::MAX,
            EventView::RawMouse { dx, dy, .. } => self.motion_fits(dx, dy),
            EventView::HidRaw { .. } => self.hid_reports < u64::MAX,
            _ => true,
        }
    }

    /// The accumulator after taking in `ev` by the method of its kind.
    pub open spec fn absorbed(self, ev: EventView) -> Coalescer {
        match ev {
            EventView::MouseMove { x, y } => Coalescer { mouse_pos: Some((x, y)), ..self },
            EventView::MouseButton { left, right, down } => Coalescer {
                button: Some((left, right, down)),
                ..self
            },
            EventView::MouseWheel { delta } => Coalescer {
                wheel: (self.wheel + delta) as i32,
                ..self
            },
            EventView::RawMouse { dx, dy, flags, buttons } => Coalescer {
                raw_delta: ((self.raw_delta.0 + dx) as i32, (self.raw_delta.1 + dy) as i32),
                raw_flags: self.raw_flags | flags,
                raw_buttons: buttons,
                ..self
            },
            EventView::Pen { contact } => Coalescer { pen: Some(contact), ..self },
            EventView::Touch { contact } => Coalescer { touch: Some(contact), ..self },
            EventView::HidRaw { .. } => Coalescer {
                hid_reports: (self.hid_reports + 1) as u64,
                ..self
            },
        }
    }

    /// The accumulator after taking in a whole sequence of events.
    pub open spec fn absorbed_all(self, evs: Seq<EventView>) -> Coalescer
        decreases evs.len(),
    {
        if evs.len() == 0 {
            self
        } else {
            self.absorbed_all(evs.drop_last()).absorbed(evs.last())
        }
    }

    /// Do the sums stay in range all along?
    pub open spec fn takes_all(self, evs: Seq<EventView>) -> bool
        decreases evs.len(),
    {
        evs.len() == 0 || self.takes_all(evs.drop_last()) && self.absorbed_all(
            evs.drop_last(),
        ).takes(evs.last())
    }

    /// An accumulator with nothing in it.
    pub fn new() -> (r: Coalescer)
        ensures
            r.is_clear(),
            r.raw_buttons == 0,
    {
        Coalescer {
            mouse_pos: None,
            raw_delta: (0, 0),
            raw_flags: 0,
            raw_buttons: 0,
            wheel: 0,
            button: None,
            pen: None,
            touch: None,
            hid_reports: 0,
        }
    }

    /// Take in a pointer position.
    pub fn mouse_move(&mut self, x: i32, y: i32)
        ensures
            *final(self) == old(self).absorbed(EventView::MouseMove { x, y }),
    {
        self.mouse_pos = Some((x, y));
    }

    /// Take in a button press or release.
    pub fn mouse_button(&mut self, left: bool, right: bool, down: bool)
        ensures
            *final(self) == old(self).absorbed(EventView::MouseButton { left, right, down }),
    {
        self.button = Some((left, right, down));
    }

    /// Take in wheel motion.
    pub fn wheel(&mut self, delta: i32)
        requires
            old(self).takes(EventView::MouseWheel { delta }),
        ensures
            *final(self) == old(self).absorbed(EventView::MouseWheel { delta }),
    {
        self.wheel = self.wheel + delta;
    }

    /// Can the summed motion take in `(dx, dy)`?
    pub open spec fn motion_fits(self, dx: i32, dy: i32) -> bool {
        &&& i32::MIN <= self.raw_delta.0 + dx <= i32::MAX
        &&& i32::MIN <= self.raw_delta.1 + dy <= i32::MAX
    }

    /// Take in relative motion and button transition flags.
    pub fn raw_mouse(&mut self, dx: i32, dy: i32, flags: u16, buttons: u32)
        requires
            old(self).takes(EventView::RawMouse { dx, dy, flags, buttons }),
        ensures
            *final(self) == old(self).absorbed(EventView::RawMouse { dx, dy, flags, buttons }),
    {
        self.raw_delta = (self.raw_delta.0 + dx, self.raw_delta.1 + dy);
        self.raw_flags = self.raw_flags | flags;
        self.raw_buttons = buttons;
    }

    /// Take in a pen contact.
    pub fn pen(&mut self, c: Contact)
        ensures
            *final(self) == old(self).absorbed(EventView::Pen { contact: c }),
    {
        self.pen = Some(c);
    }

    /// Take in a touch contact.
    pub fn touch(&mut self, c: Contact)
        ensures
            *final(self) == old(self).absorbed(EventView::Touch { contact: c }),
    {
        self.touch = Some(c);
    }

    /// Count another HID report.
    pub fn hid(&mut self)
        requires
            old(self).hid_reports < u64::MAX,
        ensures
            *final(self) == (Coalescer {
                hid_reports: (old(self).hid_reports + 1) as u64,
                ..*old(self)
            }),
    {
        self.hid_reports = self.hid_reports + 1;
    }

    /// Build the coalesced event list and reset the accumulator.
    pub fn drain(&mut self) -> (r: Vec<InputEvent>)
        ensures
            event_views(r@) == old(self).pending(),
            *final(self) == old(self).flushed(),
    {
        let mut out: Vec<InputEvent> = Vec::with_capacity(8);
        let ghost before = out@;
        if let Some((x, y)) = self.mouse_pos.take() {
            out.push(InputEvent::MouseMove { x, y });
        }
        proof {
            lemma_emitted(before, out@, old(self).pending_move());
        }
        let ghost before = out@;
        if let Some((left, right, down)) = self.button.take() {
            out.push(InputEvent::MouseButton { left, right, down });
        }
        proof {
            lemma_emitted(before, out@, old(self).pending_button());
        }
        let (dx, dy) = self.raw_delta;
        let ghost before = out@;
        if dx != 0 || dy != 0 || self.raw_flags != 0 {
            out.push(
                InputEvent::RawMouse { dx, dy, flags: self.raw_flags, buttons: self.raw_buttons },
            );
        }
        proof {
            lemma_emitted(before, out@, old(self).pending_raw());
        }
        self.raw_delta = (0, 0);
        self.raw_flags = 0;
        let ghost before = out@;
        if self.wheel != 0 {
            out.push(InputEvent::MouseWheel { delta: self.wheel });
            self.wheel = 0;
        }
        proof {
            lemma_emitted(before, out@, old(self).pending_wheel());
        }
        let ghost before = out@;
        if let Some(c) = self.pen.take() {
            out.push(InputEvent::Pen { contact: c });
        }
        proof {
            lemma_emitted(before, out@, old(self).pending_pen());
        }
        let ghost before = out@;
        if let Some(c) = self.touch.take() {
            out.push(InputEvent::Touch { contact: c });
        }
        proof {
            lemma_emitted(before, out@, old(self).pending_touch());
        }
        let ghost before = out@;
        if self.hid_reports > 0 {
            // Other HID reports are counted, not forwarded byte for byte.
            let data: Vec<u8> = Vec::new();
            proof {
                assert(data@ =~= Seq::empty());
            }
            out.push(InputEvent::HidRaw { usage_page: 0, usage: 0, data });
            self.hid_reports = 0;
        }
        proof {
            lemma_emitted(before, out@, old(self).pending_hid());
        }
        assert(event_views(Seq::empty()) + old(self).pending_move() =~= old(
            self,
        ).pending_move());
        out
    }
}

/// The place of an event in a flush, by its kind.
pub open spec fn rank(ev: EventView) -> int {
    match ev {
        EventView::MouseMove { .. } => 0,
        EventView::MouseButton { .. } => 1,
        EventView::RawMouse { .. } => 2,
        EventView::MouseWheel { .. } => 3,
        EventView::Pen { .. } => 4,
        EventView::Touch { .. } => 5,
        EventView::HidRaw { .. } => 6,
    }
}

/// Do the kinds of the events come in order, each at most once, and all before
/// the kind of rank `end`?
pub open spec fn ranked(evs: Seq<EventView>, end: int) -> bool {
    &&& forall|i: int, j: int|
        0 <= i < j < evs.len() ==> rank(#[trigger] evs[i]) < rank(#[trigger] evs[j])
    &&& forall|i: int| 0 <= i < evs.len() ==> rank(#[trigger] evs[i]) < end
}

proof fn lemma_ranked(evs: Seq<EventView>, end: int, more: Seq<EventView>)
    requires
        ranked(evs, end),
        more.len() <= 1,
        more.len() == 1 ==> rank(more[0]) == end,
    ensures
        ranked(evs + more, end + 1),
{
}

/// A flush emits at most one event of each kind, in a fixed order, and nothing
/// is left for a second one.
pub proof fn law_flush_is_small_and_complete(c: Coalescer)
    ensures
        ranked(c.pending(), 7),
        c.pending().len() <= 7,
        c.flushed().is_clear(),
        c.flushed().pending() == Seq::<EventView>::empty(),
        c.pending().len() == 0 <==> c.is_clear(),
{
    assert(c.flushed().pending() =~= Seq::<EventView>::empty());
    let e1 = c.pending_move();
    let e2 = e1 + c.pending_button();
    let e3 = e2 + c.pending_raw();
    let e4 = e3 + c.pending_wheel();
    let e5 = e4 + c.pending_pen();
    let e6 = e5 + c.pending_touch();
    lemma_ranked(e1, 1, c.pending_button());
    lemma_ranked(e2, 2, c.pending_raw());
    lemma_ranked(e3, 3, c.pending_wheel());
    lemma_ranked(e4, 4, c.pending_pen());
    lemma_ranked(e5, 5, c.pending_touch());
    lemma_ranked(e6, 6, c.pending_hid());
}

/// Coalescing loses nothing of the position, the motion, the wheel and the
/// contacts: a snapshot that takes in the flushed events agrees there with one
/// that takes in every single event.
pub proof fn law_coalescing_keeps_the_state(
    c: Coalescer,
    snapshot: InputSnapshot,
    evs: Seq<EventView>,
)
    requires
        c.is_clear(),
        c.takes_all(evs),
        snapshot.fits_all(evs),
    ensures
        ({
            let flushed = c.absorbed_all(evs).pending();
            let merged = snapshot.applied_all(flushed);
            let direct = snapshot.applied_all(evs);
            &&& snapshot.fits_all(flushed)
            &&& merged.mouse == direct.mouse
            &&& merged.raw_delta == direct.raw_delta
            &&& merged.wheel == direct.wheel
            &&& merged.pen == direct.pen
            &&& merged.touch == direct.touch
        }),
{
    lemma_direct(c, snapshot, evs);
    lemma_merged(c.absorbed_all(evs), snapshot, snapshot.applied_all(evs));
}

/// What `c` has gathered since `before` was taken leads to `after`.
spec fn accounts_for(c: Coalescer, before: InputSnapshot, after: InputSnapshot) -> bool {
    &&& after.mouse == (match c.mouse_pos {
        Some(p) => p,
        None => before.mouse,
    })
    &&& after.raw_delta.0 == before.raw_delta.0 + c.raw_delta.0
    &&& after.raw_delta.1 == before.raw_delta.1 + c.raw_delta.1
    &&& after.wheel == before.wheel + c.wheel
    &&& after.pen == (if c.pen is Some {
        c.pen
    } else {
        before.pen
    })
    &&& after.touch == (if c.touch is Some {
        c.touch
    } else {
        before.touch
    })
    &&& after.hid_reports == before.hid_reports + c.hid_reports
}

proof fn lemma_direct(c: Coalescer, before: InputSnapshot, evs: Seq<EventView>)
    requires
        c.is_clear(),
        c.takes_all(evs),
        before.fits_all(evs),
    ensures
        accounts_for(c.absorbed_all(evs), before, before.applied_all(evs)),
    decreases evs.len(),
{
    if evs.len() > 0 {
        lemma_direct(c, before, evs.drop_last());
    }
}

/// The snapshot after at most one event.
#[verifier::opaque]
spec fn after_one(s: InputSnapshot, more: Seq<EventView>) -> InputSnapshot {
    if more.len() == 0 {
        s
    } else {
        s.applied(more[0])
    }
}

proof fn lemma_apply_one(s: InputSnapshot, evs: Seq<EventView>, more: Seq<EventView>)
    requires
        more.len() <= 1,
        s.fits_all(evs),
        more.len() == 0 || s.applied_all(evs).fits(more[0]),
    ensures
        s.applied_all(evs + more) == after_one(s.applied_all(evs), more),
        s.fits_all(evs + more),
{
    reveal(after_one);
    if more.len() == 0 {
        assert(evs + more =~= evs);
    } else {
        assert((evs + more).drop_last() =~= evs);
    }
}

proof fn lemma_move_applied(s: InputSnapshot, c: Coalescer) -> (t: InputSnapshot)
    ensures
        t == after_one(s, c.pending_move()),
        c.pending_move().len() <= 1,
        t.mouse == (match c.mouse_pos {
            Some(p) => p,
            None => s.mouse,
        }),
        t.raw_delta == s.raw_delta,
        t.wheel == s.wheel,
        t.pen == s.pen,
        t.touch == s.touch,
        t.hid_reports == s.hid_reports,
        c.pending_move().len() == 0 || s.fits(c.pending_move()[0]),
{
    reveal(after_one);
    after_one(s, c.pending_move())
}

proof fn lemma_button_applied(s: InputSnapshot, c: Coalescer) -> (t: InputSnapshot)
    ensures
        t == after_one(s, c.pending_button()),
        c.pending_button().len() <= 1,
        t.mouse == s.mouse,
        t.raw_delta == s.raw_delta,
        t.wheel == s.wheel,
        t.pen == s.pen,
        t.touch == s.touch,
        t.hid_reports == s.hid_reports,
        c.pending_button().len() == 0 || s.fits(c.pending_button()[0]),
{
    reveal(after_one);
    after_one(s, c.pending_button())
}

proof fn lemma_raw_applied(s: InputSnapshot, c: Coalescer) -> (t: InputSnapshot)
    requires
        i64::MIN <= s.raw_delta.0 + c.raw_delta.0 <= i64::MAX,
        i64::MIN <= s.raw_delta.1 + c.raw_delta.1 <= i64::MAX,
    ensures
        t == after_one(s, c.pending_raw()),
        c.pending_raw().len() <= 1,
        t.mouse == s.mouse,
        t.raw_delta.0 == s.raw_delta.0 + c.raw_delta.0,
        t.raw_delta.1 == s.raw_delta.1 + c.raw_delta.1,
        t.wheel == s.wheel,
        t.pen == s.pen,
        t.touch == s.touch,
        t.hid_reports == s.hid_reports,
        c.pending_raw().len() == 0 || s.fits(c.pending_raw()[0]),
{
    reveal(after_one);
    after_one(s, c.pending_raw())
}

proof fn lemma_wheel_applied(s: InputSnapshot, c: Coalescer) -> (t: InputSnapshot)
    requires
        i32::MIN <= s.wheel + c.wheel <= i32::MAX,
    ensures
        t == after_one(s, c.pending_wheel()),
        c.pending_wheel().len() <= 1,
        t.mouse == s.mouse,
        t.raw_delta == s.raw_delta,
        t.wheel == s.wheel + c.wheel,
        t.pen == s.pen,
        t.touch == s.touch,
        t.hid_reports == s.hid_reports,
        c.pending_wheel().len() == 0 || s.fits(c.pending_wheel()[0]),
{
    reveal(after_one);
    after_one(s, c.pending_wheel())
}

proof fn lemma_pen_applied(s: InputSnapshot, c: Coalescer) -> (t: InputSnapshot)
    ensures
        t == after_one(s, c.pending_pen()),
        c.pending_pen().len() <= 1,
        t.mouse == s.mouse,
        t.raw_delta == s.raw_delta,
        t.wheel == s.wheel,
        t.pen == (if c.pen is Some {
            c.pen
        } else {
            s.pen
        }),
        t.touch == s.touch,
        t.hid_reports == s.hid_reports,
        c.pending_pen().len() == 0 || s.fits(c.pending_pen()[0]),
{
    reveal(after_one);
    after_one(s, c.pending_pen())
}

proof fn lemma_touch_applied(s: InputSnapshot, c: Coalescer) -> (t: InputSnapshot)
    ensures
        t == after_one(s, c.pending_touch()),
        c.pending_touch().len() <= 1,
        t.mouse == s.mouse,
        t.raw_delta == s.raw_delta,
        t.wheel == s.wheel,
        t.pen == s.pen,
        t.touch == (if c.touch is Some {
            c.touch
        } else {
            s.touch
        }),
        t.hid_reports == s.hid_reports,
        c.pending_touch().len() == 0 || s.fits(c.pending_touch()[0]),
{
    reveal(after_one);
    after_one(s, c.pending_touch())
}

proof fn lemma_hid_applied(s: InputSnapshot, c: Coalescer) -> (t: InputSnapshot)
    ensures
        t == after_one(s, c.pending_hid()),
        c.pending_hid().len() <= 1,
        t.mouse == s.mouse,
        t.raw_delta == s.raw_delta,
        t.wheel == s.wheel,
        t.pen == s.pen,
        t.touch == s.touch,
        s.hid_reports < u64::MAX || c.hid_reports == 0 ==> c.pending_hid().len() == 0 || s.fits(
            c.pending_hid()[0],
        ),
{
    reveal(after_one);
    after_one(s, c.pending_hid())
}

proof fn lemma_merged(c: Coalescer, before: InputSnapshot, after: InputSnapshot)
    requires
        accounts_for(c, before, after),
    ensures
        before.fits_all(c.pending()),
        ({
            let merged = before.applied_all(c.pending());
            &&& merged.mouse == after.mouse
            &&& merged.raw_delta == after.raw_delta
            &&& merged.wheel == after.wheel
            &&& merged.pen == after.pen
            &&& merged.touch == after.touch
        }),
{
    let none = Seq::<EventView>::empty();
    let e1 = c.pending_move();
    let e2 = e1 + c.pending_button();
    let e3 = e2 + c.pending_raw();
    let e4 = e3 + c.pending_wheel();
    let e5 = e4 + c.pending_pen();
    let e6 = e5 + c.pending_touch();
    let s1 = lemma_move_applied(before, c);
    assert(none + e1 =~= e1);
    lemma_apply_one(before, none, e1);
    let s2 = lemma_button_applied(s1, c);
    lemma_apply_one(before, e1, c.pending_button());
    let s3 = lemma_raw_applied(s2, c);
    lemma_apply_one(before, e2, c.pending_raw());
    let s4 = lemma_wheel_applied(s3, c);
    lemma_apply_one(before, e3, c.pending_wheel());
    let s5 = lemma_pen_applied(s4, c);
    lemma_apply_one(before, e4, c.pending_pen());
    let s6 = lemma_touch_applied(s5, c);
    lemma_apply_one(before, e5, c.pending_touch());
    let s7 = lemma_hid_applied(s6, c);
    lemma_apply_one(before, e6, c.pending_hid());
}

proof fn lemma_emitted(before: Seq<InputEvent>, after: Seq<InputEvent>, emitted: Seq<EventView>)
    requires
        emitted.len() == 0 && after == before || emitted.len() == 1 && after.len() == before.len()
            + 1 && after == before.push(after.last()) && emitted[0] == after.last()@,
    ensures
        event_views(after) == event_views(before) + emitted,
{
    assert(event_views(after) =~= event_views(before) + emitted);
}

/// What the accumulator keeps of each kind of event: the latest position,
/// button transition and contacts, the sums of motion and wheel, every button
/// flag that was set, the last button state, and the number of other reports.
pub proof fn law_event_is_gathered(c: Coalescer, ev: EventView)
    requires
        c.takes(ev),
    ensures
        ({
            let n = c.absorbed(ev);
            &&& n.mouse_pos == (match ev {
                EventView::MouseMove { x, y } => Some((x, y)),
                _ => c.mouse_pos,
            })
            &&& n.button == (match ev {
                EventView::MouseButton { left, right, down } => Some((left, right, down)),
                _ => c.button,
            })
            &&& ev matches EventView::RawMouse { dx, dy, flags, buttons } ==> n.raw_delta.0
                == c.raw_delta.0 + dx && n.raw_delta.1 == c.raw_delta.1 + dy && n.raw_flags
                == c.raw_flags | flags && n.raw_buttons == buttons
            &&& !(ev is RawMouse) ==> n.raw_delta == c.raw_delta && n.raw_flags == c.raw_flags
                && n.raw_buttons == c.raw_buttons
            &&& n.wheel == c.wheel + (match ev {
                EventView::MouseWheel { delta } => delta as int,
                _ => 0,
            })
            &&& n.pen == (match ev {
                EventView::Pen { contact } => Some(contact),
                _ => c.pen,
            })
            &&& n.touch == (match ev {
                EventView::Touch { contact } => Some(contact),
                _ => c.touch,
            })
            &&& n.hid_reports == c.hid_reports + (if ev is HidRaw {
                1int
            } else {
                0
            })
        }),
{
}

/// What a flush emits: exactly what was gathered, and of motion and wheel only
/// what has not cancelled out. Nothing of it is left, only the button state is
/// kept.
pub proof fn law_flush_emits_what_was_gathered(c: Coalescer, ev: EventView)
    ensures
        c.pending().contains(ev) <==> (match ev {
            EventView::MouseMove { x, y } => c.mouse_pos == Some((x, y)),
            EventView::MouseButton { left, right, down } => c.button == Some((left, right, down)),
            EventView::RawMouse { dx, dy, flags, buttons } => {
                &&& dx == c.raw_delta.0 && dy == c.raw_delta.1 && flags == c.raw_flags && buttons
                    == c.raw_buttons
                &&& dx != 0 || dy != 0 || flags != 0
            },
            EventView::MouseWheel { delta } => delta == c.wheel && delta != 0,
            EventView::Pen { contact } => c.pen == Some(contact),
            EventView::Touch { contact } => c.touch == Some(contact),
            EventView::HidRaw { usage_page, usage, data } => {
                &&& c.hid_reports > 0
                &&& usage_page == 0 && usage == 0 && data == Seq::<u8>::empty()
            },
        }),
        c.flushed().raw_buttons == c.raw_buttons,
        c.flushed().mouse_pos is None && c.flushed().button is None && c.flushed().pen is None
            && c.flushed().touch is None,
        c.flushed().raw_delta == (0i32, 0i32) && c.flushed().raw_flags == 0 && c.flushed().wheel
            == 0 && c.flushed().hid_reports == 0,
{
    let e1 = c.pending_move();
    let e2 = e1 + c.pending_button();
    let e3 = e2 + c.pending_raw();
    let e4 = e3 + c.pending_wheel();
    let e5 = e4 + c.pending_pen();
    let e6 = e5 + c.pending_touch();
    lemma_contained(Seq::empty(), e1, ev);
    assert(Seq::<EventView>::empty() + e1 =~= e1);
    lemma_contained(e1, c.pending_button(), ev);
    lemma_contained(e2, c.pending_raw(), ev);
    lemma_contained(e3, c.pending_wheel(), ev);
    lemma_contained(e4, c.pending_pen(), ev);
    lemma_contained(e5, c.pending_touch(), ev);
    lemma_contained(e6, c.pending_hid(), ev);
}

proof fn lemma_contained(evs: Seq<EventView>, more: Seq<EventView>, ev: EventView)
    requires
        more.len() <= 1,
    ensures
        (evs + more).contains(ev) <==> evs.contains(ev) || (more.len() == 1 && more[0] == ev),
{
    let all = evs + more;
    if all.contains(ev) {
        let i = choose|i: int| 0 <= i < all.len() && all[i] == ev;
        if i < evs.len() {
            assert(evs[i] == ev);
        }
    }
    if evs.contains(ev) {
        let i = choose|i: int| 0 <= i < evs.len() && evs[i] == ev;
        assert(all[i] == ev);
    }
    if more.len() == 1 && more[0] == ev {
        assert(all[evs.len() as int] == ev);
    }
}

/// Events are taken in one after the other, and the contents of a list are
/// those of its events.
pub proof fn law_events_come_one_by_one(
    c: Coalescer,
    evs: Seq<EventView>,
    ev: EventView,
    list: Seq<InputEvent>,
    i: int,
)
    requires
        0 <= i < list.len(),
    ensures
        c.absorbed_all(Seq::empty()) == c,
        c.absorbed_all(evs.push(ev)) == c.absorbed_all(evs).absorbed(ev),
        event_views(list).len() == list.len() && event_views(list)[i] == list[i]@,
{
    assert(evs.push(ev).drop_last() =~= evs);
}

/// The accumulator has room for every event but one whose sum or count would
/// leave its range.
pub proof fn law_accumulator_has_room(c: Coalescer, ev: EventView)
    ensures
        ev is MouseMove || ev is MouseButton || ev is Pen || ev is Touch ==> c.takes(ev),
        ev is HidRaw ==> (c.takes(ev) <==> c.hid_reports + 1 <= u64::MAX),
        ev matches EventView::MouseWheel { delta } ==> (c.takes(ev) <==> i32::MIN <= c.wheel + delta
            <= i32::MAX),
        ev matches EventView::RawMouse { dx, dy, flags, buttons } ==> (c.takes(ev) <==> i32::MIN
            <= c.raw_delta.0 + dx <= i32::MAX && i32::MIN <= c.raw_delta.1 + dy <= i32::MAX),
{
}

} // verus!
