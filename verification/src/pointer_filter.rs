//! Pointer-source state machine: keep the system cursor suppressed whenever
//! the pen is involved, including the moments of transition.
//!
//! The system cursor tends to pop out at the exact moment the pointer source
//! changes and that change involves the pen. This module models the pointer
//! source, detects those transitions and says, frame by frame, whether the
//! system cursor should be suppressed.

use vstd::prelude::*;

verus! {

/// The pointer source at a given moment.
#[derive(Debug, Clone, Copy, PartialEq, Eq, Structural)]
pub enum PointerSource {
    /// Mouse or mouse-like input.
    Mouse,
    /// Pen hovering (in range, not touching).
    PenHover,
    /// Pen touching the surface.
    PenDown,
    /// Touchpad or touch screen.
    Pad,
    /// No recent signal.
    Unknown,
}

impl PointerSource {
    /// The pen states are hovering and touching.
    pub open spec fn pen(self) -> bool {
        self == PointerSource::PenHover || self == PointerSource::PenDown
    }

    /// Is this a pen-related state?
    pub fn is_pen(self) -> (r: bool)
        ensures
            r == self.pen(),
    {
        matches!(self, PointerSource::PenHover | PointerSource::PenDown)
    }
}

/// A single pen-contact signal fed to the filter.
#[derive(Debug, Clone, Copy, PartialEq, Eq, Structural)]
pub struct PenSignal {
    /// Tip switch / contact bit.
    pub down: bool,
    /// Pen in range bit.
    pub in_range: bool,
}

/// The raw signals of one frame.
pub struct Frame {
    /// The pen report that arrived in this frame, if any.
    pub pen: Option<PenSignal>,
    /// Did a mouse event arrive?
    pub mouse: bool,
    /// Did a touchpad or touch event arrive?
    pub pad: bool,
}

impl Frame {
    /// Did anything arrive at all?
    pub open spec fn has_event(self) -> bool {
        self.pen is Some || self.mouse || self.pad
    }
}

/// The mathematical state of a [`PointerFilter`].
pub struct FilterState {
    /// Current pointer source.
    pub source: PointerSource,
    /// Frames left in the hold that follows a pen-involving transition.
    pub hold: nat,
    /// Frames since the last event of any kind.
    pub idle: nat,
}

impl FilterState {
    /// The state of a fresh filter.
    pub open spec fn initial() -> FilterState {
        FilterState { source: PointerSource::Unknown, hold: 0, idle: 0 }
    }

    /// What every filter that started fresh satisfies: the hold is bounded,
    /// and a pen state always has its hold fully armed and has not timed out.
    pub open spec fn wf(self) -> bool {
        &&& self.hold <= PointerFilter::HOLD_FRAMES
        &&& self.idle <= u32::MAX
        &&& self.source.pen() ==> self.hold == PointerFilter::HOLD_FRAMES && self.idle
            < PointerFilter::IDLE_FRAMES
    }

    /// Idle count after frame `f`; it stops counting at `u32::MAX`.
    pub open spec fn next_idle(self, f: Frame) -> nat {
        if f.has_event() {
            0
        } else if self.idle < u32::MAX {
            self.idle + 1
        } else {
            self.idle
        }
    }

    /// Pointer source after frame `f`: the pen wins over the mouse, the mouse
    /// over the pad, and only a long enough silence forgets the source.
    pub open spec fn next_source(self, f: Frame) -> PointerSource {
        match f.pen {
            Some(p) => if p.down {
                PointerSource::PenDown
            } else {
                PointerSource::PenHover
            },
            None => if f.mouse {
                PointerSource::Mouse
            } else if f.pad {
                PointerSource::Pad
            } else if self.next_idle(f) >= PointerFilter::IDLE_FRAMES {
                PointerSource::Unknown
            } else {
                self.source
            },
        }
    }

    /// The state after frame `f`.
    pub open spec fn step(self, f: Frame) -> FilterState {
        let source = self.next_source(f);
        FilterState {
            source,
            hold: if self.source.pen() || source.pen() {
                PointerFilter::HOLD_FRAMES as nat
            } else if self.hold > 0 {
                (self.hold - 1) as nat
            } else {
                0
            },
            idle: self.next_idle(f),
        }
    }

    /// Should the system cursor be suppressed in this state?
    pub open spec fn suppressed(self) -> bool {
        self.source.pen() || self.hold > 0
    }

    /// The state after a whole sequence of frames.
    pub open spec fn run(self, frames: Seq<Frame>) -> FilterState
        decreases frames.len(),
    {
        if frames.len() == 0 {
            self
        } else {
            self.run(frames.drop_last()).step(frames.last())
        }
    }
}

/// Filtered pointer-source state machine.
#[derive(Debug, Clone, Copy, PartialEq, Eq, Structural)]
pub struct PointerFilter {
    state: PointerSource,
    hold_frames: u32,
    idle_frames: u32,
}

impl View for PointerFilter {
    type V = FilterState;

    closed spec fn view(&self) -> FilterState {
        FilterState {
            source: self.state,
            hold: self.hold_frames as nat,
            idle: self.idle_frames as nat,
        }
    }
}

impl PointerFilter {
    /// Frames to keep the cursor suppressed after a pen-involving transition
    /// (about 200 ms at 60 fps) so the system cursor cannot pop out.
    pub const HOLD_FRAMES: u32 = 12;

    /// After this many frames with no event at all, drop back to `Unknown` so
    /// a stale pen state cannot keep the system cursor hidden forever.
    pub const IDLE_FRAMES: u32 = 90;

    /// Create a fresh filter (starts in `Unknown`).
    pub fn new() -> (r: PointerFilter)
        ensures
            r@ == FilterState::initial(),
            r@.wf(),
    {
        PointerFilter { state: PointerSource::Unknown, hold_frames: 0, idle_frames: 0 }
    }

    /// Current pointer source.
    pub fn state(&self) -> (r: PointerSource)
        ensures
            r == self@.source,
    {
        self.state
    }

    /// Feed one frame of raw signals and return whether the system cursor
    /// should be suppressed.
    ///
    /// * `pen`: `Some` if a pen report arrived this frame.
    /// * `mouse`: a mouse event arrived this frame.
    /// * `pad`: a touchpad or touch event arrived this frame.
    pub fn update(&mut self, pen: Option<PenSignal>, mouse: bool, pad: bool) -> (r: bool)
        ensures
            final(self)@ == old(self)@.step((Frame { pen, mouse, pad })),
            r == final(self)@.suppressed(),
            old(self)@.wf() ==> final(self)@.wf(),
    {
        let had_event = pen.is_some() || mouse || pad;
        self.idle_frames = if had_event {
            0
        } else {
            self.idle_frames.saturating_add(1)
        };

        let prev = self.state;
        let mut next = prev;
        if let Some(p) = pen {
            next = if p.down {
                PointerSource::PenDown
            } else {
                PointerSource::PenHover
            };
        } else if mouse {
            next = PointerSource::Mouse;
        } else if pad {
            next = PointerSource::Pad;
        } else if self.idle_frames >= PointerFilter::IDLE_FRAMES {
            next = PointerSource::Unknown;
        }

        if transition_involves_pen(prev, next) {
            self.hold_frames = PointerFilter::HOLD_FRAMES;
        } else if self.hold_frames > 0 {
            self.hold_frames = self.hold_frames - 1;
        }

        self.state = next;
        should_suppress(self.state, self.hold_frames)
    }
}

/// Does this state change involve the pen? If so, the cursor must be held
/// suppressed so it cannot pop out at the transition.
pub fn transition_involves_pen(prev: PointerSource, next: PointerSource) -> (r: bool)
    ensures
        r == (prev.pen() || next.pen()),
{
    prev.is_pen() || next.is_pen()
}

/// Suppress the system cursor while in a pen state, or while the hold that
/// follows a transition is still active.
pub fn should_suppress(state: PointerSource, hold_frames: u32) -> (r: bool)
    ensures
        r == (state.pen() || hold_frames > 0),
{
    state.is_pen() || hold_frames > 0
}

/// A frame that leaves or enters a pen state is suppressed, whatever the
/// other source is; so is every frame that carries a pen report.
pub proof fn law_pen_transition_is_suppressed(s: FilterState, f: Frame)
    ensures
        s.source.pen() || s.next_source(f).pen() ==> s.step(f).suppressed(),
        f.pen is Some ==> s.step(f).suppressed(),
{
}

/// A filter that started fresh stays well formed over any frames.
pub proof fn law_run_keeps_wf(s: FilterState, frames: Seq<Frame>)
    requires
        s.wf(),
    ensures
        s.run(frames).wf(),
    decreases frames.len(),
{
    if frames.len() > 0 {
        law_run_keeps_wf(s, frames.drop_last());
    }
}

/// After a pen state, mouse or pad input stays suppressed for exactly
/// `HOLD_FRAMES` frames: the hold covers them and then releases.
pub proof fn law_hold_then_release(s: FilterState, frames: Seq<Frame>)
    requires
        s.source.pen(),
        frames.len() > 0,
        forall|i: int| 0 <= i < frames.len() ==> frames[i].pen is None && frames[i].has_event(),
    ensures
        s.run(frames).suppressed() <==> frames.len() <= PointerFilter::HOLD_FRAMES,
        !s.run(frames).source.pen(),
{
    lemma_hold_counts_down(s, frames);
}

proof fn lemma_hold_counts_down(s: FilterState, frames: Seq<Frame>)
    requires
        s.source.pen(),
        frames.len() > 0,
        forall|i: int| 0 <= i < frames.len() ==> frames[i].pen is None && frames[i].has_event(),
    ensures
        !s.run(frames).source.pen(),
        s.run(frames).hold == (if frames.len() <= PointerFilter::HOLD_FRAMES {
            (PointerFilter::HOLD_FRAMES + 1 - frames.len()) as nat
        } else {
            0
        }),
    decreases frames.len(),
{
    let last = frames[frames.len() - 1];
    if frames.len() > 1 {
        lemma_hold_counts_down(s, frames.drop_last());
    } else {
        assert(frames.drop_last().len() == 0);
        assert(s.run(frames.drop_last()) == s);
    }
}

/// Without any event a pen state times out: it is forgotten when the silence
/// reaches `IDLE_FRAMES`, and the suppression is released `HOLD_FRAMES` frames
/// later, so a stale pen cannot hide the system cursor forever.
pub proof fn law_idle_pen_releases(s: FilterState, frames: Seq<Frame>)
    requires
        s.wf(),
        s.source.pen(),
        forall|i: int| 0 <= i < frames.len() ==> !frames[i].has_event(),
    ensures
        s.run(frames).suppressed() <==> s.idle + frames.len() < PointerFilter::IDLE_FRAMES
            + PointerFilter::HOLD_FRAMES,
{
    lemma_idle_counts_up(s, frames);
}

proof fn lemma_idle_counts_up(s: FilterState, frames: Seq<Frame>)
    requires
        s.wf(),
        s.source.pen(),
        forall|i: int| 0 <= i < frames.len() ==> !frames[i].has_event(),
    ensures
        ({
            let t = s.run(frames);
            let quiet = s.idle + frames.len();
            let limit = PointerFilter::IDLE_FRAMES as int;
            let hold = PointerFilter::HOLD_FRAMES as int;
            &&& t.idle == (if quiet <= u32::MAX { quiet as int } else { u32::MAX as int })
            &&& quiet < limit ==> t.source == s.source && t.hold == hold
            &&& limit <= quiet ==> t.source == PointerSource::Unknown
            &&& limit <= quiet < limit + hold ==> t.hold == limit + hold - quiet
            &&& limit + hold <= quiet ==> t.hold == 0
        }),
    decreases frames.len(),
{
    if frames.len() > 0 {
        lemma_idle_counts_up(s, frames.drop_last());
        let last = frames[frames.len() - 1];
    }
}

/// As long as no pen report arrives, a filter with no pen state and no hold
/// never suppresses the cursor: mouse and pad may alternate freely.
pub proof fn law_no_pen_no_suppression(s: FilterState, frames: Seq<Frame>)
    requires
        !s.suppressed(),
        forall|i: int| 0 <= i < frames.len() ==> frames[i].pen is None,
    ensures
        !s.run(frames).suppressed(),
    decreases frames.len(),
{
    if frames.len() > 0 {
        law_no_pen_no_suppression(s, frames.drop_last());
        let last = frames[frames.len() - 1];
    }
}

/// Whatever came before, the cursor is released in the end once no pen report
/// arrives any more, with or without other input: after `IDLE_FRAMES` and
/// `HOLD_FRAMES` frames at the latest.
pub proof fn law_pen_free_frames_release(s: FilterState, frames: Seq<Frame>)
    requires
        s.wf(),
        frames.len() >= PointerFilter::IDLE_FRAMES + PointerFilter::HOLD_FRAMES,
        forall|i: int| 0 <= i < frames.len() ==> frames[i].pen is None,
    ensures
        !s.run(frames).suppressed(),
{
    law_run_keeps_wf(s, frames);
    lemma_pen_free_countdown(s, frames);
}

/// While the pen state lasts, the silence has lasted all along; once it is
/// over, the hold runs out in time.
proof fn lemma_pen_free_countdown(s: FilterState, frames: Seq<Frame>)
    requires
        s.wf(),
        forall|i: int| 0 <= i < frames.len() ==> frames[i].pen is None,
    ensures
        ({
            let t = s.run(frames);
            let end = PointerFilter::IDLE_FRAMES + PointerFilter::HOLD_FRAMES;
            &&& t.source.pen() ==> frames.len() <= t.idle
            &&& !t.source.pen() ==> t.hold == 0 || t.hold + frames.len() <= end
        }),
    decreases frames.len(),
{
    if frames.len() > 0 {
        let last = frames[frames.len() - 1];
        law_run_keeps_wf(s, frames.drop_last());
        lemma_pen_free_countdown(s, frames.drop_last());
    }
}

/// The source after a frame: a pen report decides it alone, by its tip; without
/// one the mouse does, then the pad; and in silence it stays until 90 frames
/// have passed, and is unknown from then on.
pub proof fn law_strongest_signal_decides(s: FilterState, f: Frame)
    ensures
        ({
            let next = s.step(f).source;
            &&& f.pen matches Some(p) ==> next == (if p.down {
                PointerSource::PenDown
            } else {
                PointerSource::PenHover
            })
            &&& f.pen is None && f.mouse ==> next == PointerSource::Mouse
            &&& f.pen is None && !f.mouse && f.pad ==> next == PointerSource::Pad
            &&& f.pen is None && !f.mouse && !f.pad && s.idle + 1 < 90 ==> next == s.source
            &&& f.pen is None && !f.mouse && !f.pad && s.idle + 1 >= 90 && s.idle <= u32::MAX
                ==> next == PointerSource::Unknown
        }),
{
}

/// The counters of a frame: any signal starts the silence over; the hold is at
/// 12 frames while a pen state is entered, kept or left, and runs down by one
/// in every other frame.
pub proof fn law_counters_of_a_frame(s: FilterState, f: Frame)
    ensures
        ({
            let next = s.step(f);
            let pen_before = s.source == PointerSource::PenHover || s.source == PointerSource::PenDown;
            let pen_after = next.source == PointerSource::PenHover || next.source
                == PointerSource::PenDown;
            &&& f.pen is Some || f.mouse || f.pad ==> next.idle == 0
            &&& f.pen is None && !f.mouse && !f.pad && s.idle < u32::MAX ==> next.idle == s.idle + 1
            &&& f.pen is None && !f.mouse && !f.pad && s.idle == u32::MAX ==> next.idle == s.idle
            &&& pen_before || pen_after ==> next.hold == 12
            &&& !pen_before && !pen_after && s.hold > 0 ==> next.hold == s.hold - 1
            &&& !pen_before && !pen_after && s.hold == 0 ==> next.hold == 0
            &&& next.suppressed() <==> pen_after || next.hold > 0
        }),
{
}

/// A fresh filter knows no source and suppresses nothing, and frames are taken
/// one after the other.
pub proof fn law_run_is_frame_by_frame(s: FilterState, frames: Seq<Frame>, f: Frame)
    ensures
        FilterState::initial().source == PointerSource::Unknown,
        !FilterState::initial().suppressed(),
        s.run(Seq::empty()) == s,
        s.run(frames.push(f)) == s.run(frames).step(f),
{
    assert(frames.push(f).drop_last() =~= frames);
}

} // verus!
