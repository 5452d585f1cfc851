use custom_cursor_overlay::input::{
    decode_contact, last_global_mouse_pos, set_last_pos, take_hotkey, Contact, Hotkey, InputEvent,
    InputSnapshot, FULL_PRESSURE,
};

#[test]
fn pending_hotkey_is_taken_once() {
    let table = [
        (1, Some(Hotkey::ToggleEnabled)),
        (2, Some(Hotkey::ToggleEditing)),
        (3, Some(Hotkey::ToggleOutline)),
        (4, Some(Hotkey::RegionFull)),
        (5, Some(Hotkey::Quit)),
        (6, None),
        (0, None),
    ];
    for (id, hotkey) in table {
        let mut pending: usize = id;
        assert_eq!(take_hotkey(&mut pending), hotkey);
        assert_eq!(pending, 0);
        assert_eq!(take_hotkey(&mut pending), None);
    }
}

#[test]
fn position_is_read_back() {
    let mut word = 0u64;
    assert_eq!(last_global_mouse_pos(word), None);
    set_last_pos(&mut word, 1920, 1080);
    assert_eq!(word, (1080 << 32) | 1920);
    assert_eq!(last_global_mouse_pos(word), Some((1920, 1080)));
    set_last_pos(&mut word, i32::MAX, i32::MAX);
    assert_eq!(last_global_mouse_pos(word), Some((0x7fff_ffff, 0x7fff_ffff)));
}

#[test]
fn negative_coordinates_are_kept() {
    let mut word = 7u64;
    set_last_pos(&mut word, -5, 10);
    assert_eq!(word, (10 << 32) | 0xFFFF_FFFB);
    assert_eq!(last_global_mouse_pos(word), Some((-5, 10)));
    set_last_pos(&mut word, 3, -1);
    assert_eq!(last_global_mouse_pos(word), Some((3, -1)));
    set_last_pos(&mut word, i32::MIN, i32::MIN);
    assert_eq!(last_global_mouse_pos(word), Some((i32::MIN, i32::MIN)));
    set_last_pos(&mut word, 0, 0);
    assert_eq!(last_global_mouse_pos(word), None);
}

#[test]
fn full_report_is_decoded() {
    let c = decode_contact(&[7, 0x11, 0x34, 0x12, 0x78, 0x56, 0x00, 0x08, 0xFB, 0x0A]).unwrap();
    let expected = Contact {
        down: true,
        in_range: true,
        barrel: false,
        eraser: false,
        x: 0x1234,
        y: 0x5678,
        pressure: 0x0800,
        tilt_x: -5,
        tilt_y: 10,
    };
    assert_eq!(c, expected);
}

#[test]
fn each_button_bit_has_its_field() {
    let flags = |b: u8| decode_contact(&[0, b, 0, 0, 0, 0]).unwrap();
    assert!(flags(0x01).down && !flags(0xFE).down);
    assert!(flags(0x02).barrel && !flags(0xFD).barrel);
    assert!(flags(0x04).eraser && !flags(0xFB).eraser);
    assert!(flags(0x10).in_range && !flags(0xEF).in_range);
    assert_eq!(flags(0), Contact::default());
}

#[test]
fn short_reports_leave_out_pressure_and_tilt() {
    assert_eq!(decode_contact(&[0, 1, 2, 3, 4]), None);
    assert_eq!(decode_contact(&[]), None);
    let full: [u8; 12] = [0, 1, 2, 3, 4, 5, 6, 7, 8, 9, 10, 11];
    let at = |n: usize| decode_contact(&full[..n]).unwrap();
    assert_eq!((at(6).x, at(6).y), (0x0302, 0x0504));
    assert_eq!((at(6).pressure, at(7).pressure, at(8).pressure), (0, 0, 0x0706));
    assert_eq!((at(8).tilt_x, at(9).tilt_x), (0, 8));
    assert_eq!((at(9).tilt_y, at(10).tilt_y), (0, 9));
    assert_eq!(at(12), at(10));
}

#[test]
fn pressure_stops_at_full_pressure() {
    let pressure = |lo: u8, hi: u8| decode_contact(&[1, 0, 0, 0, 0, 0, lo, hi]).unwrap().pressure;
    assert_eq!(pressure(0xFF, 0xFF), FULL_PRESSURE);
    assert_eq!(pressure(0x00, 0x10), FULL_PRESSURE);
    assert_eq!(pressure(0xFF, 0x0F), FULL_PRESSURE - 1);
}

#[test]
fn snapshot_takes_in_every_kind_of_event() {
    let mut s = InputSnapshot::default();
    assert_eq!(s.last_device, "");
    s.apply(&InputEvent::MouseMove { x: 3, y: -4 });
    assert_eq!((s.mouse, s.last_device), ((3, -4), "mouse"));
    let pen = Contact { down: true, x: 9, ..Contact::default() };
    s.apply(&InputEvent::Pen { contact: pen });
    assert_eq!((s.pen, s.last_device), (Some(pen), "pen"));
    s.apply(&InputEvent::MouseButton { left: true, right: false, down: true });
    assert_eq!(s.last_device, "mouse");
    s.apply(&InputEvent::MouseWheel { delta: 240 });
    s.apply(&InputEvent::MouseWheel { delta: -120 });
    assert_eq!(s.wheel, 120);
    s.apply(&InputEvent::RawMouse { dx: 5, dy: -6, flags: 1, buttons: 7 });
    s.apply(&InputEvent::RawMouse { dx: 1, dy: 1, flags: 0, buttons: 9 });
    assert_eq!((s.raw_delta, s.buttons), ((6, -5), 7));
    let touch = Contact { y: 2, ..Contact::default() };
    s.apply(&InputEvent::Touch { contact: touch });
    assert_eq!((s.touch, s.last_device), (Some(touch), "touch"));
    s.apply(&InputEvent::HidRaw { usage_page: 1, usage: 2, data: vec![3] });
    assert_eq!((s.hid_reports, s.last_device), (1, "hid"));
    assert_eq!((s.mouse, s.pen), ((3, -4), Some(pen)));
}
