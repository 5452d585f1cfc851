//! What the low-level hooks and the raw-input handler make of a message:
//! which keys are held, what goes into the accumulator, which hotkey was
//! pressed, and what is replayed to the window below.

use std::collections::HashMap;

use vstd::prelude::*;

use crate::coalescer::Coalescer;
use crate::input;
use crate::input::{decode_contact, set_last_pos, EventView, Hotkey};
use crate::win32::{
    HID_USAGE_DIGITIZER_PEN, HID_USAGE_DIGITIZER_TOUCH_SCREEN, HID_USAGE_GENERIC_MOUSE,
    HID_USAGE_PAGE_DIGITIZER, HID_USAGE_PAGE_GENERIC, MK_CONTROL, MK_LBUTTON, MK_MBUTTON,
    MK_RBUTTON, MK_SHIFT, MK_XBUTTON1, MK_XBUTTON2, MOUSE_MOVE_ABSOLUTE, RIM_TYPEHID,
    RI_MOUSE_WHEEL, VK_ESCAPE, WM_KEYDOWN, WM_LBUTTONDOWN, WM_LBUTTONUP, WM_MBUTTONDOWN,
    WM_MBUTTONUP, WM_MOUSEHWHEEL, WM_MOUSEMOVE, WM_MOUSEWHEEL, WM_RBUTTONDOWN, WM_RBUTTONUP,
    WM_XBUTTONDOWN, WM_XBUTTONUP,
};

verus! {

/// The modifier bits for Ctrl and Shift.
pub open spec fn modifier_bits(ctrl: bool, shift: bool) -> usize {
    ((if ctrl {
        MK_CONTROL as int
    } else {
        0
    }) + (if shift {
        MK_SHIFT as int
    } else {
        0
    })) as usize
}

/// Modifier keys for forwarded wParam values.
pub fn key_mods(ctrl: bool, shift: bool) -> (r: usize)
    ensures
        r == modifier_bits(ctrl, shift),
{
    let mut m: usize = 0;
    if ctrl {
        m = m | MK_CONTROL;
        assert(0usize | 0x0008usize == 0x0008usize) by (bit_vector);
    }
    if shift {
        assert(0usize | 0x0004usize == 0x0004usize) by (bit_vector);
        assert(0x0008usize | 0x0004usize == 0x000Cusize) by (bit_vector);
        m = m | MK_SHIFT;
    }
    m
}

/// A message that the mouse hook saw.
#[derive(Clone, Copy, Debug)]
pub struct MouseMessage {
    /// Window message number.
    pub msg: u32,
    /// Pointer position in physical screen pixels.
    pub x: i32,
    /// Pointer position in physical screen pixels.
    pub y: i32,
    /// Wheel delta or X-button number in the high word.
    pub mouse_data: u32,
}

/// What the mouse hook remembers from one message to the next.
#[derive(Clone, Copy, Debug)]
pub struct MouseState {
    /// Mask of the mouse buttons that are held.
    pub held: u32,
    /// Last pointer position, packed.
    pub last_pos: u64,
}

/// A pointer message to be replayed to the window below the overlay.
#[derive(Clone, Copy, Debug, PartialEq, Eq, Structural)]
pub struct Replay {
    /// Pointer position in physical screen pixels.
    pub x: i32,
    /// Pointer position in physical screen pixels.
    pub y: i32,
    /// Window message number.
    pub msg: u32,
    /// Held keys, and in the high word the wheel delta or X-button number.
    pub wparam: usize,
}

/// The high word.
pub open spec fn high_word(n: u32) -> u16 {
    (n as int / 0x1_0000) as u16
}

/// A 16-bit number read as signed.
pub open spec fn signed_word(n: u16) -> i32 {
    if n < 0x8000 {
        n as i32
    } else {
        (n - 0x1_0000) as i32
    }
}

impl MouseMessage {
    /// Is this a wheel message?
    pub open spec fn is_wheel(self) -> bool {
        self.msg == WM_MOUSEWHEEL || self.msg == WM_MOUSEHWHEEL
    }

    /// Is this a message about an X-button?
    pub open spec fn is_x_button(self) -> bool {
        self.msg == WM_XBUTTONDOWN || self.msg == WM_XBUTTONUP
    }

    /// Is this one of the messages that the overlay replays?
    pub open spec fn is_pointer(self) -> bool {
        ||| self.msg == WM_MOUSEMOVE
        ||| self.button() != 0
        ||| self.is_wheel()
    }

    /// The button that goes down or up, as its bit in the held mask; zero for
    /// messages about no button.
    pub open spec fn button(self) -> u32 {
        if self.msg == WM_LBUTTONDOWN || self.msg == WM_LBUTTONUP {
            MK_LBUTTON
        } else if self.msg == WM_RBUTTONDOWN || self.msg == WM_RBUTTONUP {
            MK_RBUTTON
        } else if self.msg == WM_MBUTTONDOWN || self.msg == WM_MBUTTONUP {
            MK_MBUTTON
        } else if self.is_x_button() {
            if high_word(self.mouse_data) == 1 {
                MK_XBUTTON1
            } else {
                MK_XBUTTON2
            }
        } else {
            0
        }
    }

    /// Does a button go down?
    pub open spec fn is_press(self) -> bool {
        ||| self.msg == WM_LBUTTONDOWN
        ||| self.msg == WM_RBUTTONDOWN
        ||| self.msg == WM_MBUTTONDOWN
        ||| self.msg == WM_XBUTTONDOWN
    }

    /// The held mask after this message.
    pub open spec fn held_after(self, held: u32) -> u32 {
        if self.is_press() {
            held | self.button()
        } else if self.button() != 0 {
            held & !self.button()
        } else {
            held
        }
    }

    /// What the accumulator takes in of this message.
    pub open spec fn event(self) -> Option<EventView> {
        if self.msg == WM_MOUSEMOVE {
            Some(EventView::MouseMove { x: self.x, y: self.y })
        } else if self.button() == MK_LBUTTON {
            Some(
                EventView::MouseButton {
                    left: true,
                    right: false,
                    down: self.msg == WM_LBUTTONDOWN,
                },
            )
        } else if self.button() == MK_RBUTTON {
            Some(
                EventView::MouseButton {
                    left: false,
                    right: true,
                    down: self.msg == WM_RBUTTONDOWN,
                },
            )
        } else if self.msg == WM_MOUSEWHEEL {
            Some(EventView::MouseWheel { delta: signed_word(high_word(self.mouse_data)) })
        } else {
            None
        }
    }

    /// The wParam that is replayed, for the held mask after the message: wheel
    /// and X-button messages carry their high word along.
    pub open spec fn wparam(self, held: u32, mods: usize) -> usize {
        let keys = (held as usize) | mods;
        if self.is_wheel() || self.is_x_button() {
            ((high_word(self.mouse_data) as usize) << 16) | keys
        } else {
            keys
        }
    }
}

/// The accumulator after an optional event.
pub open spec fn absorbed_opt(c: Coalescer, ev: Option<EventView>) -> Coalescer {
    match ev {
        Some(ev) => c.absorbed(ev),
        None => c,
    }
}

/// Global low-level mouse hook: merges the message into the accumulator,
/// tracks the held buttons and the latest position, and says what is to be
/// replayed so that the app below behaves as if the real cursor were there:
/// hover, drags, middle and X buttons, vertical and horizontal wheel.
///
/// `code` is the hook code; messages with a negative one are left alone.
pub fn mouse_ll_hook(
    state: &mut MouseState,
    c: &mut Coalescer,
    code: i32,
    m: MouseMessage,
    mods: usize,
) -> (r: Option<Replay>)
    requires
        code >= 0 ==> (m.event() matches Some(ev) ==> old(c).takes(ev)),
    ensures
        code < 0 ==> r is None && *final(state) == *old(state) && *final(c) == *old(c),
        code >= 0 ==> {
            &&& final(state).held == m.held_after(old(state).held)
            &&& final(state).last_pos == (if m.msg == WM_MOUSEMOVE {
                input::position_word(m.x, m.y)
            } else {
                old(state).last_pos
            })
            &&& *final(c) == absorbed_opt(*old(c), m.event())
            &&& r == (if m.is_pointer() {
                Some(
                    Replay {
                        x: m.x,
                        y: m.y,
                        msg: m.msg,
                        wparam: m.wparam(final(state).held, mods),
                    },
                )
            } else {
                None
            })
        },
{
    if code < 0 {
        return None;
    }
    let data: u32 = m.mouse_data;
    assert((data >> 16) & 0xFFFF == data / 0x1_0000) by (bit_vector);
    assert(data >> 16 == data / 0x1_0000) by (bit_vector);
    let hi: u16 = (data >> 16) as u16;
    if m.msg == WM_MOUSEMOVE {
        set_last_pos(&mut state.last_pos, m.x, m.y);
        c.mouse_move(m.x, m.y);
    } else if m.msg == WM_LBUTTONDOWN {
        state.held = state.held | MK_LBUTTON;
        c.mouse_button(true, false, true);
    } else if m.msg == WM_LBUTTONUP {
        state.held = state.held & !MK_LBUTTON;
        c.mouse_button(true, false, false);
    } else if m.msg == WM_RBUTTONDOWN {
        state.held = state.held | MK_RBUTTON;
        c.mouse_button(false, true, true);
    } else if m.msg == WM_RBUTTONUP {
        state.held = state.held & !MK_RBUTTON;
        c.mouse_button(false, true, false);
    } else if m.msg == WM_MBUTTONDOWN {
        state.held = state.held | MK_MBUTTON;
    } else if m.msg == WM_MBUTTONUP {
        state.held = state.held & !MK_MBUTTON;
    } else if m.msg == WM_XBUTTONDOWN || m.msg == WM_XBUTTONUP {
        let mk: u32 = if hi == 1 {
            MK_XBUTTON1
        } else {
            MK_XBUTTON2
        };
        if m.msg == WM_XBUTTONDOWN {
            state.held = state.held | mk;
        } else {
            state.held = state.held & !mk;
        }
        let keys: usize = (state.held as usize) | mods;
        return Some(Replay { x: m.x, y: m.y, msg: m.msg, wparam: ((hi as usize) << 16) | keys });
    } else if m.msg == WM_MOUSEWHEEL || m.msg == WM_MOUSEHWHEEL {
        if m.msg == WM_MOUSEWHEEL {
            c.wheel(word_to_signed(hi));
        }
        let keys: usize = (state.held as usize) | mods;
        return Some(Replay { x: m.x, y: m.y, msg: m.msg, wparam: ((hi as usize) << 16) | keys });
    } else {
        return None;
    }
    let keys: usize = (state.held as usize) | mods;
    Some(Replay { x: m.x, y: m.y, msg: m.msg, wparam: keys })
}

fn word_to_signed(n: u16) -> (r: i32)
    ensures
        r == signed_word(n),
{
    if n < 0x8000 {
        n as i32
    } else {
        n as i32 - 0x1_0000
    }
}

/// The number of the hotkey for a key press; zero where there is none.
pub open spec fn hotkey_id(vk: u32, ctrl: bool, shift: bool) -> usize {
    if ctrl && shift {
        if vk == 0x43 {
            1  // Ctrl+Shift+C: toggle enabled

        } else if vk == 0x52 {
            2  // Ctrl+Shift+R: toggle region editing

        } else if vk == 0x4F {
            3  // Ctrl+Shift+O: toggle region outline

        } else if vk == 0x30 {
            4  // Ctrl+Shift+0: region = full window

        } else if vk == 0x51 {
            5  // Ctrl+Shift+Q: quit

        } else {
            0
        }
    } else if vk == VK_ESCAPE {
        5  // Esc: quit

    } else {
        0
    }
}

/// Global keyboard hook: turns Ctrl+Shift+C/R/O/0/Q and Esc into the number of
/// a pending hotkey. Other keys leave the pending one alone.
pub fn keyboard_ll_hook(
    pending: &mut usize,
    code: i32,
    msg: u32,
    vk: u32,
    ctrl: bool,
    shift: bool,
)
    ensures
        *final(pending) == (if code >= 0 && msg == WM_KEYDOWN && hotkey_id(vk, ctrl, shift) != 0 {
            hotkey_id(vk, ctrl, shift)
        } else {
            *old(pending)
        }),
{
    if code >= 0 && msg == WM_KEYDOWN {
        let id: usize = if ctrl && shift {
            match vk {
                0x43 => 1,
                0x52 => 2,
                0x4F => 3,
                0x30 => 4,
                0x51 => 5,
                _ => 0,
            }
        } else if vk == VK_ESCAPE {
            5
        } else {
            0
        };
        if id != 0 {
            *pending = id;
        }
    }
}

/// What the system said about one raw-input device.
#[derive(Clone, Copy, Debug)]
pub struct DeviceReply {
    /// Device handle.
    pub device: usize,
    /// Size of the device information, zero if it was not available.
    pub info_size: u32,
    /// Bytes of device information that were read, zero if the read failed.
    pub info_read: u32,
    /// Device type.
    pub device_type: u32,
    /// HID usage page and usage.
    pub usage: (u16, u16),
}

impl DeviceReply {
    /// Does the reply describe a HID device?
    pub open spec fn is_hid(self) -> bool {
        self.info_size != 0 && self.info_read != 0 && self.device_type == RIM_TYPEHID
    }
}

/// The usage of each HID device among the replies; the last reply counts.
pub open spec fn device_usages(replies: Seq<DeviceReply>) -> Map<usize, (u16, u16)>
    decreases replies.len(),
{
    if replies.len() == 0 {
        Map::empty()
    } else {
        let before = device_usages(replies.drop_last());
        if replies.last().is_hid() {
            before.insert(replies.last().device, replies.last().usage)
        } else {
            before
        }
    }
}

/// Build the map from device handle to usage page and usage, by which HID
/// reports are classified as pen, touch or other.
pub fn enumerate_devices(replies: &Vec<DeviceReply>) -> (r: HashMap<usize, (u16, u16)>)
    ensures
        r@ == device_usages(replies@),
{
    broadcast use vstd::std_specs::hash::group_hash_axioms;

    let mut map: HashMap<usize, (u16, u16)> = HashMap::new();
    let mut i: usize = 0;
    while i < replies.len()
        invariant
            i <= replies@.len(),
            map@ == device_usages(replies@.take(i as int)),
        decreases replies@.len() - i,
    {
        let d = replies[i];
        if d.info_size != 0 && d.info_read != 0 && d.device_type == RIM_TYPEHID {
            map.insert(d.device, d.usage);
        }
        proof {
            assert(replies@.take(i + 1).drop_last() =~= replies@.take(i as int));
            assert(replies@.take(i + 1).last() == d);
        }
        i = i + 1;
    }
    proof {
        assert(replies@.take(i as int) =~= replies@);
    }
    map
}

/// The usages that raw input is subscribed to: mouse, pen and touch screen.
pub fn subscribed_usages() -> (r: [(u16, u16); 3])
    ensures
        r@ == seq![
            (HID_USAGE_PAGE_GENERIC, HID_USAGE_GENERIC_MOUSE),
            (HID_USAGE_PAGE_DIGITIZER, HID_USAGE_DIGITIZER_PEN),
            (HID_USAGE_PAGE_DIGITIZER, HID_USAGE_DIGITIZER_TOUCH_SCREEN),
        ],
{
    let r = [
        (HID_USAGE_PAGE_GENERIC, HID_USAGE_GENERIC_MOUSE),
        (HID_USAGE_PAGE_DIGITIZER, HID_USAGE_DIGITIZER_PEN),
        (HID_USAGE_PAGE_DIGITIZER, HID_USAGE_DIGITIZER_TOUCH_SCREEN),
    ];
    assert(r@ =~= seq![
        (HID_USAGE_PAGE_GENERIC, HID_USAGE_GENERIC_MOUSE),
        (HID_USAGE_PAGE_DIGITIZER, HID_USAGE_DIGITIZER_PEN),
        (HID_USAGE_PAGE_DIGITIZER, HID_USAGE_DIGITIZER_TOUCH_SCREEN),
    ]);
    r
}

/// How many bytes of a HID packet are looked at: `count` reports of `size`
/// bytes, but no more than 256 bytes in all.
pub fn hid_payload_len(size: u32, count: u32) -> (r: usize)
    ensures
        r == (if size * count < 256 {
            size * count
        } else {
            256
        }),
{
    assert(size * count <= 0xFFFF_FFFF * 0xFFFF_FFFF) by (nonlinear_arith)
        requires
            0 <= size <= 0xFFFF_FFFF,
            0 <= count <= 0xFFFF_FFFF,
    ;
    assert(size * count >= 0) by (nonlinear_arith)
        requires
            0 <= size,
            0 <= count,
    ;
    let n: u64 = (size as u64) * (count as u64);
    if n < 256 {
        n as usize
    } else {
        256
    }
}

/// A raw-input packet.
#[derive(Debug)]
pub enum RawInput {
    /// Mouse motion and button transitions.
    Mouse {
        /// Motion flags.
        flags: u16,
        /// Motion along X.
        dx: i32,
        /// Motion along Y.
        dy: i32,
        /// Button transition flags.
        button_flags: u16,
        /// Wheel delta, if the flags say so.
        button_data: u16,
        /// Raw button state.
        raw_buttons: u32,
    },
    /// A HID report.
    Hid {
        /// Device handle.
        device: usize,
        /// The bytes of the report.
        data: Vec<u8>,
    },
    /// Anything else.
    Other,
}

impl RawInput {
    /// The motion of a mouse packet: absolute positions count as none.
    pub open spec fn motion(flags: u16, dx: i32, dy: i32) -> (i32, i32) {
        if flags & MOUSE_MOVE_ABSOLUTE != 0 {
            (0, 0)
        } else {
            (dx, dy)
        }
    }

    /// What the accumulator takes in of this packet, in order, given the usages
    /// of the known devices.
    pub open spec fn events(self, usages: Map<usize, (u16, u16)>) -> Seq<EventView> {
        match self {
            RawInput::Mouse { flags, dx, dy, button_flags, button_data, raw_buttons } => {
                let moved = EventView::RawMouse {
                    dx: RawInput::motion(flags, dx, dy).0,
                    dy: RawInput::motion(flags, dx, dy).1,
                    flags: button_flags,
                    buttons: raw_buttons,
                };
                if button_flags & RI_MOUSE_WHEEL != 0 {
                    seq![moved, EventView::MouseWheel { delta: signed_word(button_data) }]
                } else {
                    seq![moved]
                }
            },
            RawInput::Hid { device, data } => {
                let other = seq![
                    EventView::HidRaw { usage_page: 0, usage: 0, data: Seq::empty() },
                ];
                if !usages.contains_key(device) {
                    other
                } else if usages[device] == (HID_USAGE_PAGE_DIGITIZER, HID_USAGE_DIGITIZER_PEN) {
                    match input::contact_in(data@) {
                        Some(contact) => seq![EventView::Pen { contact }],
                        None => seq![],
                    }
                } else if usages[device] == (
                    HID_USAGE_PAGE_DIGITIZER,
                    HID_USAGE_DIGITIZER_TOUCH_SCREEN,
                ) {
                    match input::contact_in(data@) {
                        Some(contact) => seq![EventView::Touch { contact }],
                        None => seq![],
                    }
                } else {
                    other
                }
            },
            RawInput::Other => seq![],
        }
    }
}

/// Merge a raw-input packet into the accumulator. HID reports are classified
/// by the usage of their device; a digitizer report that cannot be decoded is
/// dropped, and a report of any other device is counted.
pub fn handle_raw_input(c: &mut Coalescer, raw: &RawInput, usage_map: &HashMap<usize, (u16, u16)>)
    requires
        old(c).takes_all(raw.events(usage_map@)),
    ensures
        *final(c) == old(c).absorbed_all(raw.events(usage_map@)),
{
    broadcast use vstd::std_specs::hash::group_hash_axioms;

    let ghost evs = raw.events(usage_map@);
    proof {
        if evs.len() > 0 {
            lemma_absorb_short(*old(c), evs);
        }
    }
    match raw {
        RawInput::Mouse { flags, dx, dy, button_flags, button_data, raw_buttons } => {
            let (dx, dy) = if *flags & MOUSE_MOVE_ABSOLUTE != 0 {
                (0, 0)
            } else {
                (*dx, *dy)
            };
            c.raw_mouse(dx, dy, *button_flags, *raw_buttons);
            if *button_flags & RI_MOUSE_WHEEL != 0 {
                c.wheel(word_to_signed(*button_data));
            }
        },
        RawInput::Hid { device, data } => {
            match usage_map.get(device) {
                None => {
                    c.hid();
                },
                Some(u) => {
                    let (page, usage) = *u;
                    if page == HID_USAGE_PAGE_DIGITIZER && usage == HID_USAGE_DIGITIZER_PEN {
                        if let Some(contact) = decode_contact(data.as_slice()) {
                            c.pen(contact);
                        }
                    } else if page == HID_USAGE_PAGE_DIGITIZER && usage
                        == HID_USAGE_DIGITIZER_TOUCH_SCREEN {
                        if let Some(contact) = decode_contact(data.as_slice()) {
                            c.touch(contact);
                        }
                    } else {
                        c.hid();
                    }
                },
            }
        },
        RawInput::Other => {},
    }
}

/// Pressing a button sets its bit, releasing it clears the bit, and neither
/// touches the others: a button that was not held before leaves no trace.
pub proof fn law_press_and_release(held: u32, press: MouseMessage, release: MouseMessage)
    requires
        press.is_press(),
        !release.is_press(),
        release.button() == press.button(),
    ensures
        ({
            let b = press.button();
            let down = press.held_after(held);
            let up = release.held_after(down);
            &&& down & b == b
            &&& down & !b == held & !b
            &&& up & b == 0
            &&& up & !b == held & !b
            &&& held & b == 0 ==> up == held
        }),
{
    let b = press.button();
    assert((held | b) & b == b) by (bit_vector);
    assert((held | b) & !b == held & !b) by (bit_vector);
    assert(((held | b) & !b) & b == 0) by (bit_vector);
    assert(((held | b) & !b) & !b == held & !b) by (bit_vector);
    assert(held & b == 0 ==> (held | b) & !b == held) by (bit_vector);
}

/// The bits of all mouse buttons.
pub open spec fn button_bits() -> u32 {
    0x73
}

/// The held mask never holds anything but button bits.
pub proof fn law_held_mask_stays_clean(held: u32, m: MouseMessage)
    requires
        held & !button_bits() == 0,
    ensures
        m.held_after(held) & !button_bits() == 0,
{
    let b = m.button();
    assert(b & !0x73u32 == 0) by {
        assert(0u32 & !0x73u32 == 0) by (bit_vector);
        assert(0x01u32 & !0x73u32 == 0) by (bit_vector);
        assert(0x02u32 & !0x73u32 == 0) by (bit_vector);
        assert(0x10u32 & !0x73u32 == 0) by (bit_vector);
        assert(0x20u32 & !0x73u32 == 0) by (bit_vector);
        assert(0x40u32 & !0x73u32 == 0) by (bit_vector);
    }
    assert((held | b) & !0x73u32 == 0 && (held & !b) & !0x73u32 == 0) by (bit_vector)
        requires
            held & !0x73u32 == 0,
            b & !0x73u32 == 0,
    ;
}

/// The app below can tell the parts of a replayed wParam apart: the held
/// buttons, the modifier keys, and the high word of wheel and X-button
/// messages.
pub proof fn law_wparam_parts(m: MouseMessage, held: u32, ctrl: bool, shift: bool)
    requires
        held & !button_bits() == 0,
    ensures
        ({
            let w = m.wparam(held, modifier_bits(ctrl, shift));
            &&& w & 0x73 == held as usize
            &&& w & 0x0C == modifier_bits(ctrl, shift)
            &&& w >> 16 == (if m.is_wheel() || m.is_x_button() {
                high_word(m.mouse_data) as usize
            } else {
                0
            })
        }),
{
    let mods = modifier_bits(ctrl, shift);
    let k = held as usize;
    let hi = high_word(m.mouse_data) as usize;
    assert(held <= 0x73) by (bit_vector)
        requires
            held & !0x73u32 == 0,
    ;
    assert(held & 0x73u32 == held) by (bit_vector)
        requires
            held & !0x73u32 == 0,
    ;
    assert(held & 0x0Cu32 == 0) by (bit_vector)
        requires
            held & !0x73u32 == 0,
    ;
    assert(k & 0x73usize == k && k & 0x0Cusize == 0);
    assert((k | mods) & 0x73 == k && (k | mods) & 0x0C == mods && (k | mods) >> 16 == 0 && ((hi
        << 16) | (k | mods)) & 0x73 == k && ((hi << 16) | (k | mods)) & 0x0C == mods && ((hi << 16)
        | (k | mods)) >> 16 == hi) by (bit_vector)
        requires
            k <= 0x73,
            k & 0x73usize == k,
            k & 0x0Cusize == 0,
            hi <= 0xFFFF,
            mods == 0 || mods == 4 || mods == 8 || mods == 12,
    ;
}

/// What the keyboard hook leaves behind is exactly the hotkey of the keys:
/// the five combinations and Esc, and nothing else.
pub proof fn law_hotkeys_are_understood(vk: u32, ctrl: bool, shift: bool)
    ensures
        hotkey_id(vk, ctrl, shift) != 0 <==> input::hotkey_of(hotkey_id(vk, ctrl, shift)) is Some,
        input::hotkey_of(hotkey_id(vk, ctrl, shift)) == (if ctrl && shift {
            if vk == 'C' as u32 {
                Some(Hotkey::ToggleEnabled)
            } else if vk == 'R' as u32 {
                Some(Hotkey::ToggleEditing)
            } else if vk == 'O' as u32 {
                Some(Hotkey::ToggleOutline)
            } else if vk == '0' as u32 {
                Some(Hotkey::RegionFull)
            } else if vk == 'Q' as u32 {
                Some(Hotkey::Quit)
            } else {
                None
            }
        } else if vk == VK_ESCAPE {
            Some(Hotkey::Quit)
        } else {
            None
        }),
{
}

proof fn lemma_absorb_short(c: Coalescer, evs: Seq<EventView>)
    requires
        0 < evs.len() <= 2,
        c.takes_all(evs),
    ensures
        c.takes(evs[0]),
        evs.len() == 1 ==> c.absorbed_all(evs) == c.absorbed(evs[0]),
        evs.len() == 2 ==> c.absorbed(evs[0]).takes(evs[1]) && c.absorbed_all(evs) == c.absorbed(
            evs[0],
        ).absorbed(evs[1]),
{
    reveal_with_fuel(Coalescer::absorbed_all, 3);
    reveal_with_fuel(Coalescer::takes_all, 3);
    if evs.len() == 2 {
        assert(evs.drop_last()[0] == evs[0]);
    }
}

/// The high word of a number, and a word read as signed.
pub proof fn law_words(n: u32, w: u16)
    ensures
        high_word(n) as int * 0x1_0000 <= n < (high_word(n) as int + 1) * 0x1_0000,
        signed_word(w) == w || signed_word(w) == w - 0x1_0000,
        -0x8000 <= signed_word(w) < 0x8000,
{
}

/// Ctrl and Shift have a modifier bit each.
pub proof fn law_modifier_bits_differ(ctrl: bool, shift: bool)
    ensures
        modifier_bits(ctrl, shift) / 8 % 2 == 1 <==> ctrl,
        modifier_bits(ctrl, shift) / 4 % 2 == 1 <==> shift,
        modifier_bits(ctrl, shift) <= 12 && modifier_bits(ctrl, shift) % 4 == 0,
{
}

/// How each message changes the mask of held buttons: a press adds the bit of
/// its button, a release takes it away, and all other messages leave the mask
/// alone. Of the X buttons the first one is number one in the high word.
pub proof fn law_messages_and_held_buttons(m: MouseMessage, held: u32)
    ensures
        ({
            let after = m.held_after(held);
            let first = m.mouse_data / 0x1_0000 == 1;
            let known = m.msg == WM_LBUTTONDOWN || m.msg == WM_LBUTTONUP || m.msg == WM_RBUTTONDOWN
                || m.msg == WM_RBUTTONUP || m.msg == WM_MBUTTONDOWN || m.msg == WM_MBUTTONUP || m.msg
                == WM_XBUTTONDOWN || m.msg == WM_XBUTTONUP;
            &&& m.msg == WM_LBUTTONDOWN ==> after == held | 0x01u32
            &&& m.msg == WM_LBUTTONUP ==> after == held & !0x01u32
            &&& m.msg == WM_RBUTTONDOWN ==> after == held | 0x02u32
            &&& m.msg == WM_RBUTTONUP ==> after == held & !0x02u32
            &&& m.msg == WM_MBUTTONDOWN ==> after == held | 0x10u32
            &&& m.msg == WM_MBUTTONUP ==> after == held & !0x10u32
            &&& m.msg == WM_XBUTTONDOWN && first ==> after == held | 0x20u32
            &&& m.msg == WM_XBUTTONDOWN && !first ==> after == held | 0x40u32
            &&& m.msg == WM_XBUTTONUP && first ==> after == held & !0x20u32
            &&& m.msg == WM_XBUTTONUP && !first ==> after == held & !0x40u32
            &&& !known ==> after == held
        }),
{
}

/// What the accumulator gets of each message: positions, presses and releases
/// of the left and the right button, and the signed delta of the vertical
/// wheel. Middle and X buttons and the horizontal wheel are not gathered.
pub proof fn law_messages_and_events(m: MouseMessage)
    ensures
        m.msg == WM_MOUSEMOVE ==> m.event() == Some(EventView::MouseMove { x: m.x, y: m.y }),
        m.msg == WM_LBUTTONDOWN ==> m.event() == Some(
            EventView::MouseButton { left: true, right: false, down: true },
        ),
        m.msg == WM_LBUTTONUP ==> m.event() == Some(
            EventView::MouseButton { left: true, right: false, down: false },
        ),
        m.msg == WM_RBUTTONDOWN ==> m.event() == Some(
            EventView::MouseButton { left: false, right: true, down: true },
        ),
        m.msg == WM_RBUTTONUP ==> m.event() == Some(
            EventView::MouseButton { left: false, right: true, down: false },
        ),
        m.msg == WM_MOUSEWHEEL ==> (m.event() matches Some(EventView::MouseWheel { delta }) && (
        delta == m.mouse_data / 0x1_0000 || delta == m.mouse_data / 0x1_0000 - 0x1_0000) && -0x8000
            <= delta < 0x8000),
        m.msg == WM_MBUTTONDOWN || m.msg == WM_MBUTTONUP || m.msg == WM_XBUTTONDOWN || m.msg
            == WM_XBUTTONUP || m.msg == WM_MOUSEHWHEEL ==> m.event() is None,
        !m.is_pointer() ==> m.event() is None,
{
}

/// Every pointer message is replayed: motion, all buttons and both wheels, and
/// no other message.
pub proof fn law_every_pointer_message_is_replayed(m: MouseMessage)
    ensures
        m.is_pointer() <==> m.msg == WM_MOUSEMOVE || m.msg == WM_LBUTTONDOWN || m.msg
            == WM_LBUTTONUP || m.msg == WM_RBUTTONDOWN || m.msg == WM_RBUTTONUP || m.msg
            == WM_MBUTTONDOWN || m.msg == WM_MBUTTONUP || m.msg == WM_XBUTTONDOWN || m.msg
            == WM_XBUTTONUP || m.msg == WM_MOUSEWHEEL || m.msg == WM_MOUSEHWHEEL,
{
}

/// The high word of a replayed wParam is that of the message for wheels and X
/// buttons, and empty for all others; the low word has the held buttons and the
/// modifier keys.
pub proof fn law_wparam_by_message(m: MouseMessage, held: u32, mods: usize)
    ensures
        m.msg == WM_MOUSEWHEEL || m.msg == WM_MOUSEHWHEEL || m.msg == WM_XBUTTONDOWN || m.msg
            == WM_XBUTTONUP ==> m.wparam(held, mods) == (((m.mouse_data / 0x1_0000) as usize) << 16)
            | ((held as usize) | mods),
        m.msg == WM_MOUSEMOVE || m.msg == WM_LBUTTONDOWN || m.msg == WM_LBUTTONUP || m.msg
            == WM_RBUTTONDOWN || m.msg == WM_RBUTTONUP || m.msg == WM_MBUTTONDOWN || m.msg
            == WM_MBUTTONUP ==> m.wparam(held, mods) == (held as usize) | mods,
{
}

/// The accumulator takes in an event if there is one.
pub proof fn law_optional_event(c: Coalescer, ev: EventView)
    ensures
        absorbed_opt(c, None) == c,
        absorbed_opt(c, Some(ev)) == c.absorbed(ev),
{
}

/// A reply that describes a HID device and could be read decides the usage of
/// that device, whatever was known of it before; any other reply says nothing,
/// and no reply says anything of other devices.
pub proof fn law_reply_decides_its_device(
    replies: Seq<DeviceReply>,
    reply: DeviceReply,
    device: usize,
)
    ensures
        ({
            let before = device_usages(replies);
            let after = device_usages(replies.push(reply));
            let read = reply.info_size != 0 && reply.info_read != 0 && reply.device_type
                == RIM_TYPEHID;
            &&& !device_usages(Seq::empty()).contains_key(device)
            &&& read ==> after.contains_key(reply.device) && after[reply.device] == reply.usage
            &&& !read || device != reply.device ==> (after.contains_key(device)
                <==> before.contains_key(device))
            &&& !read || device != reply.device ==> (before.contains_key(device) ==> after[device]
                == before[device])
        }),
{
    assert(replies.push(reply).drop_last() =~= replies);
}

/// Every readable HID device among the replies is known.
pub proof fn law_readable_devices_are_known(replies: Seq<DeviceReply>, i: int)
    requires
        0 <= i < replies.len(),
        replies[i].info_size != 0,
        replies[i].info_read != 0,
        replies[i].device_type == RIM_TYPEHID,
    ensures
        device_usages(replies).contains_key(replies[i].device),
    decreases replies.len(),
{
    if i < replies.len() - 1 {
        assert(replies.drop_last()[i] == replies[i]);
        law_readable_devices_are_known(replies.drop_last(), i);
    }
}

/// What a mouse packet gives: its relative motion, none if it is absolute, with
/// the button flags and state; and after it the signed wheel delta, if the
/// flags announce one.
pub proof fn law_mouse_packet_events(
    flags: u16,
    dx: i32,
    dy: i32,
    button_flags: u16,
    button_data: u16,
    raw_buttons: u32,
    usages: Map<usize, (u16, u16)>,
)
    ensures
        ({
            let evs = (RawInput::Mouse {
                flags,
                dx,
                dy,
                button_flags,
                button_data,
                raw_buttons,
            }).events(usages);
            let absolute = flags & MOUSE_MOVE_ABSOLUTE != 0;
            let wheel = button_flags & RI_MOUSE_WHEEL != 0;
            &&& evs.len() == (if wheel {
                2int
            } else {
                1
            })
            &&& absolute ==> evs[0] == (EventView::RawMouse {
                dx: 0,
                dy: 0,
                flags: button_flags,
                buttons: raw_buttons,
            })
            &&& !absolute ==> evs[0] == (EventView::RawMouse {
                dx,
                dy,
                flags: button_flags,
                buttons: raw_buttons,
            })
            &&& wheel ==> (evs[1] matches EventView::MouseWheel { delta } && (delta == button_data
                || delta == button_data - 0x1_0000) && -0x8000 <= delta < 0x8000)
        }),
{
}

/// What a HID report gives: the contact of a pen or a touch screen, nothing if
/// such a report is too short, and for any other device a count.
pub proof fn law_report_events(device: usize, data: Vec<u8>, usages: Map<usize, (u16, u16)>)
    ensures
        ({
            let evs = (RawInput::Hid { device, data }).events(usages);
            let pen = usages.contains_key(device) && usages[device].0 == HID_USAGE_PAGE_DIGITIZER
                && usages[device].1 == HID_USAGE_DIGITIZER_PEN;
            let touch = usages.contains_key(device) && usages[device].0 == HID_USAGE_PAGE_DIGITIZER
                && usages[device].1 == HID_USAGE_DIGITIZER_TOUCH_SCREEN;
            let contact = input::contact_in(data@);
            &&& pen && contact is Some ==> evs.len() == 1 && evs[0] == (EventView::Pen {
                contact: contact.unwrap(),
            })
            &&& touch && contact is Some ==> evs.len() == 1 && evs[0] == (EventView::Touch {
                contact: contact.unwrap(),
            })
            &&& (pen || touch) && contact is None ==> evs.len() == 0
            &&& !pen && !touch ==> evs.len() == 1 && evs[0] is HidRaw
        }),
        RawInput::Other.events(usages).len() == 0,
{
}

/// At most 256 bytes of a packet are looked at, and fewer only where the packet
/// has no more.
pub proof fn law_payload_is_bounded(size: u32, count: u32, len: usize)
    requires
        call_ensures(hid_payload_len, (size, count), len),
    ensures
        len <= 256 && len <= size * count,
        len == 256 || len == size * count,
{
    assert(0 <= size * count) by (nonlinear_arith)
        requires
            0 <= size,
            0 <= count,
    ;
}

/// Mouse, pen and touch screen are subscribed to; touch pads are not.
pub proof fn law_subscribed_devices(usages: [(u16, u16); 3])
    requires
        call_ensures(subscribed_usages, (), usages),
    ensures
        forall|u: (u16, u16)|
            #[trigger] usages@.contains(u) <==> u == (0x01u16, 0x02u16) || u == (0x0Du16, 0x02u16)
                || u == (0x0Du16, 0x04u16),
{
    assert(usages@[0] == (0x01u16, 0x02u16) && usages@[1] == (0x0Du16, 0x02u16) && usages@[2] == (
        0x0Du16,
        0x04u16,
    ));
}

} // verus!
