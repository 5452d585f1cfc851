use custom_cursor_overlay::pointer_filter::{
    should_suppress, transition_involves_pen, PenSignal, PointerFilter, PointerSource,
};

fn p(down: bool, in_range: bool) -> Option<PenSignal> {
    Some(PenSignal { down, in_range })
}

#[test]
fn every_pen_involving_transition_is_detected() {
    let sources = [
        PointerSource::Mouse,
        PointerSource::PenHover,
        PointerSource::PenDown,
        PointerSource::Pad,
    ];
    for &from in &sources {
        for &to in &sources {
            assert_eq!(
                transition_involves_pen(from, to),
                from.is_pen() || to.is_pen(),
                "from={from:?} to={to:?}"
            );
        }
    }
}

#[test]
fn suppress_decision_per_state_and_hold() {
    assert!(should_suppress(PointerSource::PenDown, 0));
    assert!(should_suppress(PointerSource::PenHover, 0));
    assert!(!should_suppress(PointerSource::Mouse, 0));
    assert!(!should_suppress(PointerSource::Pad, 0));
    assert!(!should_suppress(PointerSource::Unknown, 0));
    assert!(should_suppress(PointerSource::Mouse, 1)); // post-transition hold
}

#[test]
fn pen_down_and_hover_suppress() {
    let mut f = PointerFilter::new();
    assert!(f.update(p(true, true), false, false)); // PenDown
    assert!(f.update(p(false, true), false, false)); // PenHover
}

#[test]
fn mouse_and_pad_do_not_suppress() {
    let mut f = PointerFilter::new();
    assert!(!f.update(None, true, false)); // Mouse
    assert!(!f.update(None, false, true)); // Pad
}

#[test]
fn mouse_to_pen_suppresses_immediately() {
    let mut f = PointerFilter::new();
    f.update(None, true, false); // Mouse
    assert!(f.update(p(true, true), false, false)); // to PenDown
}

#[test]
fn pen_down_up_stays_suppressed() {
    let mut f = PointerFilter::new();
    f.update(p(true, true), false, false); // PenDown
    for _ in 0..PointerFilter::HOLD_FRAMES + 5 {
        assert!(f.update(p(false, true), false, false)); // PenHover (up)
    }
}

#[test]
fn pen_to_mouse_holds_then_releases() {
    let mut f = PointerFilter::new();
    f.update(p(true, true), false, false); // PenDown
    assert!(f.update(None, true, false)); // to Mouse: transition hold active
    let mut released = false;
    for _ in 0..PointerFilter::HOLD_FRAMES + 2 {
        if !f.update(None, true, false) {
            released = true;
            break;
        }
    }
    assert!(released, "suppression should release after the hold");
}

#[test]
fn mouse_to_pad_does_not_hold() {
    let mut f = PointerFilter::new();
    f.update(None, true, false); // Mouse
    assert!(!f.update(None, false, true)); // to Pad: no pen involved
}

#[test]
fn pad_to_mouse_does_not_hold() {
    let mut f = PointerFilter::new();
    f.update(None, false, true); // Pad
    assert!(!f.update(None, true, false)); // to Mouse: no pen involved
}

#[test]
fn pen_to_pad_holds() {
    let mut f = PointerFilter::new();
    f.update(p(true, true), false, false); // PenDown
    assert!(f.update(None, false, true)); // to Pad: pen involved, so hold
}

#[test]
fn pad_to_pen_holds() {
    let mut f = PointerFilter::new();
    f.update(None, false, true); // Pad
    assert!(f.update(p(false, true), false, false)); // to PenHover
}

#[test]
fn idle_timeout_releases() {
    let mut f = PointerFilter::new();
    f.update(p(true, true), false, false); // PenDown
    let mut released = false;
    for _ in 0..PointerFilter::IDLE_FRAMES + PointerFilter::HOLD_FRAMES + 4 {
        if !f.update(None, false, false) {
            released = true;
            break;
        }
    }
    assert!(released, "stale pen state must release after idle timeout");
}

#[test]
fn hold_covers_exactly_twelve_frames() {
    let mut f = PointerFilter::new();
    f.update(p(false, true), false, false);
    for i in 1..=20 {
        assert_eq!(f.update(None, i % 2 == 0, i % 2 == 1), i <= 12, "frame {i}");
    }
    assert_eq!(f.state(), PointerSource::Mouse);
}

#[test]
fn silence_forgets_the_pen_after_ninety_frames() {
    let mut f = PointerFilter::new();
    f.update(p(true, false), false, false);
    for i in 1..=120 {
        let suppressed = f.update(None, false, false);
        assert_eq!(suppressed, i < 102, "frame {i}");
        let expected = if i < 90 { PointerSource::PenDown } else { PointerSource::Unknown };
        assert_eq!(f.state(), expected, "frame {i}");
    }
}

#[test]
fn pen_wins_over_mouse_and_mouse_over_pad() {
    let mut f = PointerFilter::new();
    assert_eq!(f.state(), PointerSource::Unknown);
    f.update(p(false, false), true, true);
    assert_eq!(f.state(), PointerSource::PenHover);
    f.update(None, true, true);
    assert_eq!(f.state(), PointerSource::Mouse);
    f.update(None, false, true);
    assert_eq!(f.state(), PointerSource::Pad);
}

#[test]
fn mouse_and_pad_alternate_without_suppression() {
    let mut f = PointerFilter::new();
    for i in 0..300 {
        assert!(!f.update(None, i % 3 == 0, i % 3 == 1));
    }
}

#[test]
fn released_in_time_whatever_comes_but_the_pen() {
    for start in [1, 40, 89, 90, 101] {
        let mut f = PointerFilter::new();
        f.update(p(true, true), false, false);
        let mut suppressed = true;
        for i in 1..=102 {
            suppressed = f.update(None, i >= start && i % 2 == 0, i == start);
        }
        assert!(!suppressed, "other input from frame {start} on");
    }
}
