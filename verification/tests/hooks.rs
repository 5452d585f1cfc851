use custom_cursor_overlay::coalescer::Coalescer;
use custom_cursor_overlay::hooks::{
    enumerate_devices, handle_raw_input, hid_payload_len, key_mods, keyboard_ll_hook,
    mouse_ll_hook, subscribed_usages, DeviceReply, MouseMessage, MouseState, RawInput, Replay,
};
use custom_cursor_overlay::input::{last_global_mouse_pos, take_hotkey, Hotkey, InputEvent};
use custom_cursor_overlay::win32::{
    WM_KEYDOWN, WM_LBUTTONDOWN, WM_LBUTTONUP, WM_MBUTTONDOWN, WM_MBUTTONUP, WM_MOUSEHWHEEL,
    WM_MOUSEMOVE, WM_MOUSEWHEEL, WM_RBUTTONDOWN, WM_RBUTTONUP, WM_XBUTTONDOWN, WM_XBUTTONUP,
};

struct Hook {
    state: MouseState,
    c: Coalescer,
}

impl Hook {
    fn new() -> Hook {
        Hook { state: MouseState { held: 0, last_pos: 0 }, c: Coalescer::new() }
    }

    fn see(&mut self, msg: u32, mouse_data: u32, mods: usize) -> Option<Replay> {
        let m = MouseMessage { msg, x: 10, y: 20, mouse_data };
        mouse_ll_hook(&mut self.state, &mut self.c, 0, m, mods)
    }
}

#[test]
fn modifier_keys_have_their_bits() {
    assert_eq!(key_mods(false, false), 0);
    assert_eq!(key_mods(true, false), 8);
    assert_eq!(key_mods(false, true), 4);
    assert_eq!(key_mods(true, true), 12);
}

#[test]
fn motion_is_stored_and_replayed() {
    let mut h = Hook::new();
    let r = h.see(WM_MOUSEMOVE, 0, 4).unwrap();
    assert_eq!(r, Replay { x: 10, y: 20, msg: WM_MOUSEMOVE, wparam: 4 });
    assert_eq!(last_global_mouse_pos(h.state.last_pos), Some((10, 20)));
    let events = h.c.drain();
    assert_eq!(events.len(), 1);
    assert!(matches!(events[0], InputEvent::MouseMove { x: 10, y: 20 }));
}

#[test]
fn buttons_are_held_until_released() {
    let mut h = Hook::new();
    assert_eq!(h.see(WM_LBUTTONDOWN, 0, 0).unwrap().wparam, 0x01);
    assert!(matches!(
        h.c.drain()[0],
        InputEvent::MouseButton { left: true, right: false, down: true }
    ));
    assert_eq!(h.see(WM_RBUTTONDOWN, 0, 8).unwrap().wparam, 0x0B);
    assert!(matches!(
        h.c.drain()[0],
        InputEvent::MouseButton { left: false, right: true, down: true }
    ));
    assert_eq!(h.see(WM_MBUTTONDOWN, 0, 0).unwrap().wparam, 0x13);
    assert!(h.c.drain().is_empty());
    assert_eq!(h.see(WM_XBUTTONDOWN, 1 << 16, 0).unwrap().wparam, 0x0001_0033);
    assert_eq!(h.see(WM_XBUTTONDOWN, 2 << 16, 0).unwrap().wparam, 0x0002_0073);
    assert_eq!(h.see(WM_MOUSEMOVE, 0, 0).unwrap().wparam, 0x73);
    assert_eq!(h.see(WM_XBUTTONUP, 1 << 16, 0).unwrap().wparam, 0x0001_0053);
    assert_eq!(h.see(WM_XBUTTONUP, 2 << 16, 0).unwrap().wparam, 0x0002_0013);
    assert_eq!(h.see(WM_MBUTTONUP, 0, 0).unwrap().wparam, 0x03);
    assert_eq!(h.see(WM_RBUTTONUP, 0, 0).unwrap().wparam, 0x01);
    assert_eq!(h.see(WM_LBUTTONUP, 0, 0).unwrap().wparam, 0x00);
    assert!(matches!(
        h.c.drain()[1],
        InputEvent::MouseButton { left: true, right: false, down: false }
    ));
    assert_eq!(h.state.held, 0);
}

#[test]
fn wheel_carries_its_delta() {
    let mut h = Hook::new();
    let up = h.see(WM_MOUSEWHEEL, 120 << 16, 4).unwrap();
    assert_eq!(up.wparam, (120 << 16) | 4);
    let down = h.see(WM_MOUSEWHEEL, 0xFF10_0000, 0).unwrap();
    assert_eq!(down.wparam, 0xFF10_0000);
    let events = h.c.drain();
    assert!(matches!(events[0], InputEvent::MouseWheel { delta: -120 }));
    // Horizontal motion is replayed but not counted.
    assert_eq!(h.see(WM_MOUSEHWHEEL, 120 << 16, 0).unwrap().wparam, 120 << 16);
    assert!(h.c.drain().is_empty());
}

#[test]
fn other_messages_and_negative_codes_are_left_alone() {
    let mut h = Hook::new();
    assert_eq!(h.see(0x0203, 0, 0), None);
    let m = MouseMessage { msg: WM_LBUTTONDOWN, x: 1, y: 2, mouse_data: 0 };
    assert_eq!(mouse_ll_hook(&mut h.state, &mut h.c, -1, m, 0), None);
    assert_eq!((h.state.held, h.state.last_pos), (0, 0));
    assert!(h.c.drain().is_empty());
}

#[test]
fn hotkeys_reach_the_application() {
    let press = |vk: u32, ctrl: bool, shift: bool| {
        let mut pending = 0usize;
        keyboard_ll_hook(&mut pending, 0, WM_KEYDOWN, vk, ctrl, shift);
        take_hotkey(&mut pending)
    };
    assert_eq!(press('C' as u32, true, true), Some(Hotkey::ToggleEnabled));
    assert_eq!(press('R' as u32, true, true), Some(Hotkey::ToggleEditing));
    assert_eq!(press('O' as u32, true, true), Some(Hotkey::ToggleOutline));
    assert_eq!(press('0' as u32, true, true), Some(Hotkey::RegionFull));
    assert_eq!(press('Q' as u32, true, true), Some(Hotkey::Quit));
    assert_eq!(press(0x1B, false, false), Some(Hotkey::Quit));
    assert_eq!(press(0x1B, true, false), Some(Hotkey::Quit));
    assert_eq!(press(0x1B, true, true), None);
    assert_eq!(press('C' as u32, true, false), None);
    assert_eq!(press('X' as u32, true, true), None);
}

#[test]
fn pending_hotkey_survives_other_keys() {
    let mut pending = 2usize;
    keyboard_ll_hook(&mut pending, 0, WM_KEYDOWN, 'A' as u32, false, false);
    keyboard_ll_hook(&mut pending, -1, WM_KEYDOWN, 0x1B, false, false);
    keyboard_ll_hook(&mut pending, 0, WM_KEYDOWN + 1, 0x1B, false, false);
    assert_eq!(pending, 2);
    keyboard_ll_hook(&mut pending, 0, WM_KEYDOWN, 0x1B, false, false);
    assert_eq!(pending, 5);
}

fn reply(device: usize, info_size: u32, info_read: u32, device_type: u32, usage: u16) -> DeviceReply {
    DeviceReply { device, info_size, info_read, device_type, usage: (0x0D, usage) }
}

#[test]
fn only_readable_hid_devices_are_known() {
    let map = enumerate_devices(&vec![
        reply(1, 32, 32, 2, 2),
        reply(2, 0, 32, 2, 2),
        reply(3, 32, 0, 2, 2),
        reply(4, 32, 32, 0, 2),
        reply(5, 32, 32, 2, 4),
        reply(1, 32, 32, 2, 9),
    ]);
    assert_eq!(map.len(), 2);
    assert_eq!(map.get(&1), Some(&(0x0D, 9)));
    assert_eq!(map.get(&5), Some(&(0x0D, 4)));
}

#[test]
fn subscriptions_and_payload() {
    assert_eq!(subscribed_usages(), [(0x01, 0x02), (0x0D, 0x02), (0x0D, 0x04)]);
    assert_eq!(hid_payload_len(10, 3), 30);
    assert_eq!(hid_payload_len(0, 9), 0);
    assert_eq!(hid_payload_len(64, 4), 256);
    assert_eq!(hid_payload_len(u32::MAX, u32::MAX), 256);
}

fn mouse(flags: u16, button_flags: u16, button_data: u16) -> RawInput {
    RawInput::Mouse { flags, dx: 3, dy: -4, button_flags, button_data, raw_buttons: 5 }
}

#[test]
fn raw_mouse_packets_are_merged() {
    let map = enumerate_devices(&vec![]);
    let mut c = Coalescer::new();
    handle_raw_input(&mut c, &mouse(0, 0x0401, 0xFF88), &map);
    let events = c.drain();
    assert_eq!(events.len(), 2);
    assert!(matches!(
        events[0],
        InputEvent::RawMouse { dx: 3, dy: -4, flags: 0x0401, buttons: 5 }
    ));
    assert!(matches!(events[1], InputEvent::MouseWheel { delta: -120 }));
    // Absolute positions carry no motion.
    handle_raw_input(&mut c, &mouse(1, 0, 120), &map);
    assert!(c.drain().is_empty());
    handle_raw_input(&mut c, &RawInput::Other, &map);
    assert!(c.drain().is_empty());
}

#[test]
fn reports_are_classified_by_their_device() {
    let map = enumerate_devices(&vec![
        reply(1, 1, 1, 2, 2),
        reply(2, 1, 1, 2, 4),
        reply(3, 1, 1, 2, 5),
        DeviceReply { device: 4, info_size: 1, info_read: 1, device_type: 2, usage: (1, 2) },
    ]);
    let mut c = Coalescer::new();
    let mut feed = |device: usize, data: Vec<u8>| {
        handle_raw_input(&mut c, &RawInput::Hid { device, data }, &map);
        c.drain()
    };
    let report = vec![1, 1, 2, 0, 3, 0];
    assert!(matches!(feed(1, report.clone())[0], InputEvent::Pen { contact } if contact.x == 2));
    assert!(matches!(feed(2, report.clone())[0], InputEvent::Touch { contact } if contact.y == 3));
    assert!(feed(1, vec![1, 1]).is_empty());
    assert!(feed(2, vec![]).is_empty());
    assert!(matches!(feed(3, report.clone())[0], InputEvent::HidRaw { .. }));
    assert!(matches!(feed(4, report.clone())[0], InputEvent::HidRaw { .. }));
    assert!(matches!(feed(9, report.clone())[0], InputEvent::HidRaw { .. }));
}
