use custom_cursor_overlay::coalescer::Coalescer;
use custom_cursor_overlay::input::{Contact, InputEvent, InputSnapshot};

fn contact(x: u16) -> Contact {
    Contact { x, ..Contact::default() }
}

#[test]
fn fresh_accumulator_emits_nothing() {
    let mut c = Coalescer::new();
    assert!(c.drain().is_empty());
}

#[test]
fn drain_emits_the_latest_state_in_order() {
    let mut c = Coalescer::new();
    c.hid();
    c.hid();
    c.touch(contact(1));
    c.pen(contact(2));
    c.pen(contact(3));
    c.wheel(120);
    c.wheel(-240);
    c.raw_mouse(4, 5, 0x01, 1);
    c.raw_mouse(-1, 2, 0x04, 3);
    c.mouse_button(true, false, true);
    c.mouse_button(true, false, false);
    c.mouse_move(1, 1);
    c.mouse_move(7, 8);
    let events = c.drain();
    assert_eq!(events.len(), 7);
    assert!(matches!(events[0], InputEvent::MouseMove { x: 7, y: 8 }));
    assert!(matches!(events[1], InputEvent::MouseButton { left: true, right: false, down: false }));
    assert!(matches!(events[2], InputEvent::RawMouse { dx: 3, dy: 7, flags: 0x05, buttons: 3 }));
    assert!(matches!(events[3], InputEvent::MouseWheel { delta: -120 }));
    assert!(matches!(events[4], InputEvent::Pen { contact } if contact.x == 3));
    assert!(matches!(events[5], InputEvent::Touch { contact } if contact.x == 1));
    match &events[6] {
        InputEvent::HidRaw { usage_page, usage, data } => {
            assert_eq!((*usage_page, *usage, data.len()), (0, 0, 0));
        }
        other => panic!("unexpected {other:?}"),
    }
    assert!(c.drain().is_empty());
    assert_eq!(c.raw_buttons, 3);
}

#[test]
fn motion_that_cancels_out_is_not_emitted() {
    let mut c = Coalescer::new();
    c.raw_mouse(4, -5, 0, 2);
    c.raw_mouse(-4, 5, 0, 2);
    c.wheel(120);
    c.wheel(-120);
    assert!(c.drain().is_empty());
    c.raw_mouse(0, 0, 0x0400, 2);
    assert_eq!(c.drain().len(), 1);
}

#[test]
fn coalesced_events_lead_to_the_same_snapshot() {
    let singles = vec![
        InputEvent::MouseMove { x: 1, y: 2 },
        InputEvent::RawMouse { dx: 3, dy: 4, flags: 0, buttons: 0 },
        InputEvent::MouseWheel { delta: 120 },
        InputEvent::Pen { contact: contact(5) },
        InputEvent::MouseMove { x: 6, y: 7 },
        InputEvent::RawMouse { dx: -8, dy: 9, flags: 1, buttons: 1 },
        InputEvent::Touch { contact: contact(10) },
        InputEvent::Pen { contact: contact(11) },
        InputEvent::MouseWheel { delta: 240 },
    ];
    let mut direct = InputSnapshot::default();
    let mut c = Coalescer::new();
    for ev in &singles {
        direct.apply(ev);
        match ev {
            InputEvent::MouseMove { x, y } => c.mouse_move(*x, *y),
            InputEvent::RawMouse { dx, dy, flags, buttons } => {
                c.raw_mouse(*dx, *dy, *flags, *buttons)
            }
            InputEvent::MouseWheel { delta } => c.wheel(*delta),
            InputEvent::Pen { contact } => c.pen(*contact),
            InputEvent::Touch { contact } => c.touch(*contact),
            _ => unreachable!(),
        }
    }
    let mut merged = InputSnapshot::default();
    for ev in c.drain() {
        merged.apply(&ev);
    }
    assert_eq!(merged.mouse, direct.mouse);
    assert_eq!(merged.raw_delta, direct.raw_delta);
    assert_eq!(merged.wheel, direct.wheel);
    assert_eq!(merged.pen, direct.pen);
    assert_eq!(merged.touch, direct.touch);
}
