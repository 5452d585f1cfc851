//! Raw input: events, the running snapshot, hotkeys, the packed pointer
//! position and the digitizer report decoder.
//!
//! Positions are whole physical pixels. Digitizer values stay in device
//! units: coordinates as the 16-bit numbers of the report, pressure in
//! 4096ths of full pressure, tilt in whole degrees.

use vstd::prelude::*;

verus! {

/// A single contact decoded from a HID digitizer report.
#[derive(Clone, Copy, Debug, Default, PartialEq, Eq, Structural)]
pub struct Contact {
    /// Tip switch / contact bit (button byte bit 0).
    pub down: bool,
    /// Pen in range bit (button byte bit 4).
    pub in_range: bool,
    /// Barrel / side button (button byte bit 1).
    pub barrel: bool,
    /// Eraser button (button byte bit 2).
    pub eraser: bool,
    /// Raw X in device units.
    pub x: u16,
    /// Raw Y in device units.
    pub y: u16,
    /// Pressure in 4096ths, at most [`FULL_PRESSURE`].
    pub pressure: u16,
    /// Tilt along X, degrees.
    pub tilt_x: i8,
    /// Tilt along Y, degrees.
    pub tilt_y: i8,
}

/// Full pressure, in the units of [`Contact::pressure`].
pub const FULL_PRESSURE: u16 = 4096;

/// Events produced by the raw-input thread.
#[derive(Clone, Debug)]
pub enum InputEvent {
    /// Global mouse position (from the low-level hook), physical pixels.
    MouseMove { x: i32, y: i32 },
    /// Left/right button press/release (from the low-level hook).
    MouseButton { left: bool, right: bool, down: bool },
    /// Mouse wheel delta (multiple of 120).
    MouseWheel { delta: i32 },
    /// Raw input: relative motion and button transition flags.
    RawMouse { dx: i32, dy: i32, flags: u16, buttons: u32 },
    /// HID pen digitizer (0x0D/0x02).
    Pen { contact: Contact },
    /// HID touch screen (0x0D/0x04).
    Touch { contact: Contact },
    /// Any other HID report with its raw bytes (device-specific).
    HidRaw { usage_page: u16, usage: u16, data: Vec<u8> },
}

/// The mathematical content of an [`InputEvent`].
pub enum EventView {
    MouseMove { x: i32, y: i32 },
    MouseButton { left: bool, right: bool, down: bool },
    MouseWheel { delta: i32 },
    RawMouse { dx: i32, dy: i32, flags: u16, buttons: u32 },
    Pen { contact: Contact },
    Touch { contact: Contact },
    HidRaw { usage_page: u16, usage: u16, data: Seq<u8> },
}

impl View for InputEvent {
    type V = EventView;

    open spec fn view(&self) -> EventView {
        match *self {
            InputEvent::MouseMove { x, y } => EventView::MouseMove { x, y },
            InputEvent::MouseButton { left, right, down } => EventView::MouseButton {
                left,
                right,
                down,
            },
            InputEvent::MouseWheel { delta } => EventView::MouseWheel { delta },
            InputEvent::RawMouse { dx, dy, flags, buttons } => EventView::RawMouse {
                dx,
                dy,
                flags,
                buttons,
            },
            InputEvent::Pen { contact } => EventView::Pen { contact },
            InputEvent::Touch { contact } => EventView::Touch { contact },
            InputEvent::HidRaw { usage_page, usage, data } => EventView::HidRaw {
                usage_page,
                usage,
                data: data@,
            },
        }
    }
}

/// Latest decoded raw-input state.
#[derive(Clone, Copy, Debug)]
pub struct InputSnapshot {
    /// Last pointer position.
    pub mouse: (i32, i32),
    /// Relative motion summed up since the start.
    pub raw_delta: (i64, i64),
    /// Raw button state at the last button transition.
    pub buttons: u32,
    /// Wheel motion summed up since the start.
    pub wheel: i32,
    /// Last pen contact.
    pub pen: Option<Contact>,
    /// Last touch contact.
    pub touch: Option<Contact>,
    /// Number of events for other HID reports; one such event stands for all
    /// reports that were merged into a flush.
    pub hid_reports: u64,
    /// Device of the last event; empty before the first one.
    pub last_device: &'static str,
}

impl Default for InputSnapshot {
    fn default() -> (r: InputSnapshot)
        ensures
            r.mouse == (0i32, 0i32),
            r.raw_delta == (0i64, 0i64),
            r.buttons == 0,
            r.wheel == 0,
            r.pen is None,
            r.touch is None,
            r.hid_reports == 0,
            r.last_device@ == ""@,
    {
        InputSnapshot {
            mouse: (0, 0),
            raw_delta: (0, 0),
            buttons: 0,
            wheel: 0,
            pen: None,
            touch: None,
            hid_reports: 0,
            last_device: "",
        }
    }
}

impl InputSnapshot {
    /// Do the running sums stay in range when `ev` is applied?
    pub open spec fn fits(self, ev: EventView) -> bool {
        match ev {
            EventView::MouseWheel { delta } => i32::MIN <= self.wheel + delta <= i32::MAX,
            EventView::RawMouse { dx, dy, .. } => {
                &&& i64::MIN <= self.raw_delta.0 + dx <= i64::MAX
                &&& i64::MIN <= self.raw_delta.1 + dy <= i64::MAX
            },
            EventView::HidRaw { .. } => self.hid_reports < u64::MAX,
            _ => true,
        }
    }

    /// The snapshot after `ev`.
    pub open spec fn applied(self, ev: EventView) -> InputSnapshot {
        match ev {
            EventView::MouseMove { x, y } => InputSnapshot {
                mouse: (x, y),
                last_device: "mouse",
                ..self
            },
            EventView::MouseButton { .. } => InputSnapshot { last_device: "mouse", ..self },
            EventView::MouseWheel { delta } => InputSnapshot {
                wheel: (self.wheel + delta) as i32,
                last_device: "mouse",
                ..self
            },
            EventView::RawMouse { dx, dy, flags, buttons } => InputSnapshot {
                raw_delta: ((self.raw_delta.0 + dx) as i64, (self.raw_delta.1 + dy) as i64),
                buttons: if flags != 0 {
                    buttons
                } else {
                    self.buttons
                },
                last_device: "mouse",
                ..self
            },
            EventView::Pen { contact } => InputSnapshot {
                pen: Some(contact),
                last_device: "pen",
                ..self
            },
            EventView::Touch { contact } => InputSnapshot {
                touch: Some(contact),
                last_device: "touch",
                ..self
            },
            EventView::HidRaw { .. } => InputSnapshot {
                hid_reports: (self.hid_reports + 1) as u64,
                last_device: "hid",
                ..self
            },
        }
    }

    /// The snapshot after a whole sequence of events.
    pub open spec fn applied_all(self, evs: Seq<EventView>) -> InputSnapshot
        decreases evs.len(),
    {
        if evs.len() == 0 {
            self
        } else {
            self.applied_all(evs.drop_last()).applied(evs.last())
        }
    }

    /// Do the running sums stay in range all along?
    pub open spec fn fits_all(self, evs: Seq<EventView>) -> bool
        decreases evs.len(),
    {
        evs.len() == 0 || self.fits_all(evs.drop_last()) && self.applied_all(evs.drop_last()).fits(
            evs.last(),
        )
    }

    /// Fold one event into the snapshot.
    pub fn apply(&mut self, ev: &InputEvent)
        requires
            old(self).fits(ev@),
        ensures
            *final(self) == old(self).applied(ev@),
    {
        match ev {
            InputEvent::MouseMove { x, y } => {
                self.mouse = (*x, *y);
                self.last_device = "mouse";
            },
            InputEvent::MouseButton { .. } => {
                self.last_device = "mouse";
            },
            InputEvent::MouseWheel { delta } => {
                self.wheel = self.wheel + *delta;
                self.last_device = "mouse";
            },
            InputEvent::RawMouse { dx, dy, flags, buttons } => {
                self.raw_delta = (self.raw_delta.0 + *dx as i64, self.raw_delta.1 + *dy as i64);
                if *flags != 0 {
                    self.buttons = *buttons;
                }
                self.last_device = "mouse";
            },
            InputEvent::Pen { contact } => {
                self.pen = Some(*contact);
                self.last_device = "pen";
            },
            InputEvent::Touch { contact } => {
                self.touch = Some(*contact);
                self.last_device = "touch";
            },
            InputEvent::HidRaw { .. } => {
                self.hid_reports = self.hid_reports + 1;
                self.last_device = "hid";
            },
        }
    }
}

/// Global hotkeys.
#[derive(Clone, Copy, Debug, PartialEq, Eq, Structural)]
pub enum Hotkey {
    ToggleEnabled,
    ToggleEditing,
    ToggleOutline,
    RegionFull,
    Quit,
}

/// The hotkey with number `id`; zero and unknown numbers stand for none.
pub open spec fn hotkey_of(id: usize) -> Option<Hotkey> {
    if id == 1 {
        Some(Hotkey::ToggleEnabled)
    } else if id == 2 {
        Some(Hotkey::ToggleEditing)
    } else if id == 3 {
        Some(Hotkey::ToggleOutline)
    } else if id == 4 {
        Some(Hotkey::RegionFull)
    } else if id == 5 {
        Some(Hotkey::Quit)
    } else {
        None
    }
}

/// Consume the most recent hotkey, if any: `pending` holds its number.
pub fn take_hotkey(pending: &mut usize) -> (r: Option<Hotkey>)
    ensures
        r == hotkey_of(*old(pending)),
        *final(pending) == 0,
{
    let id: usize = *pending;
    *pending = 0;
    match id {
        1 => Some(Hotkey::ToggleEnabled),
        2 => Some(Hotkey::ToggleEditing),
        3 => Some(Hotkey::ToggleOutline),
        4 => Some(Hotkey::RegionFull),
        5 => Some(Hotkey::Quit),
        _ => None,
    }
}

/// The 32-bit pattern of a coordinate, in two's complement.
pub open spec fn pattern(n: i32) -> u32 {
    if n < 0 {
        (n + 0x1_0000_0000) as u32
    } else {
        n as u32
    }
}

/// The coordinate that a 32-bit pattern stands for.
pub open spec fn coordinate(p: u32) -> i32 {
    if p < 0x8000_0000 {
        p as i32
    } else {
        (p - 0x1_0000_0000) as i32
    }
}

/// The position word: the pattern of X in the low half, that of Y in the high
/// half.
pub open spec fn position_word(x: i32, y: i32) -> u64 {
    (pattern(y) as int * 0x1_0000_0000 + pattern(x) as int) as u64
}

/// The position that a word holds; the zero word holds none.
pub open spec fn position_of(word: u64) -> Option<(i32, i32)> {
    if word == 0 {
        None
    } else {
        Some(
            (
                coordinate((word as int % 0x1_0000_0000) as u32),
                coordinate((word as int / 0x1_0000_0000) as u32),
            ),
        )
    }
}

fn to_pattern(n: i32) -> (r: u64)
    ensures
        r == pattern(n),
{
    if n < 0 {
        (n as i64 + 0x1_0000_0000) as u64
    } else {
        n as u64
    }
}

fn to_coordinate(p: u32) -> (r: i32)
    ensures
        r == coordinate(p),
{
    if p < 0x8000_0000 {
        p as i32
    } else {
        (p as i64 - 0x1_0000_0000) as i32
    }
}

/// Store the pointer position in the position word.
pub fn set_last_pos(word: &mut u64, x: i32, y: i32)
    ensures
        *final(word) == position_word(x, y),
{
    let lo: u64 = to_pattern(x);
    let hi: u64 = to_pattern(y);
    assert((hi << 32) | lo == hi * 0x1_0000_0000 + lo) by (bit_vector)
        requires
            lo < 0x1_0000_0000,
            hi < 0x1_0000_0000,
    ;
    *word = (hi << 32) | lo;
}

/// Last global mouse position stored in the position word, if any.
pub fn last_global_mouse_pos(word: u64) -> (r: Option<(i32, i32)>)
    ensures
        r == position_of(word),
{
    if word == 0 {
        None
    } else {
        assert(word & 0xFFFF_FFFF == word % 0x1_0000_0000) by (bit_vector);
        assert((word >> 32) & 0xFFFF_FFFF == word / 0x1_0000_0000) by (bit_vector);
        Some(
            (
                to_coordinate((word & 0xFFFF_FFFF) as u32),
                to_coordinate(((word >> 32) & 0xFFFF_FFFF) as u32),
            ),
        )
    }
}

/// A stored position is read back as it was, also on a monitor left of or above
/// the primary one; only the origin itself reads as no position.
pub proof fn law_position_round_trip(x: i32, y: i32)
    ensures
        (x, y) != (0i32, 0i32) ==> position_of(position_word(x, y)) == Some((x, y)),
        position_of(position_word(0, 0)) is None,
{
}

/// The 16-bit little-endian number at `i`.
pub open spec fn le16(data: Seq<u8>, i: int) -> u16 {
    (data[i] + 256 * data[i + 1]) as u16
}

/// A byte read as a signed number.
pub open spec fn signed_byte(b: u8) -> i8 {
    if b < 128 {
        b as i8
    } else {
        (b - 256) as i8
    }
}

/// The contact that a digitizer report holds, if it is long enough:
///
/// ```text
///   [0]     report ID (1..=255, or 0 if absent)
///   [1]     button byte:
///             bit0 tip/contact, bit1 barrel (side button),
///             bit2 eraser, bit3 invert, bit4 in-range
///   [2..4]  X (16-bit LE)
///   [4..6]  Y (16-bit LE)
///   [6..8]  pressure (16-bit LE)
///   [8]     tilt X (8-bit signed), [9] tilt Y (8-bit signed)
/// ```
///
/// Pressure and tilt are zero where the report ends before them.
pub open spec fn contact_in(data: Seq<u8>) -> Option<Contact> {
    if data.len() < 6 {
        None
    } else {
        Some(
            Contact {
                down: data[1] & 0x01 != 0,
                in_range: data[1] & 0x10 != 0,
                barrel: data[1] & 0x02 != 0,
                eraser: data[1] & 0x04 != 0,
                x: le16(data, 2),
                y: le16(data, 4),
                pressure: if data.len() < 8 {
                    0
                } else if le16(data, 6) > FULL_PRESSURE {
                    FULL_PRESSURE
                } else {
                    le16(data, 6)
                },
                tilt_x: if data.len() < 9 {
                    0
                } else {
                    signed_byte(data[8])
                },
                tilt_y: if data.len() < 10 {
                    0
                } else {
                    signed_byte(data[9])
                },
            },
        )
    }
}

fn read_le16(data: &[u8], i: usize) -> (r: u16)
    requires
        i + 1 < data@.len(),
    ensures
        r == le16(data@, i as int),
{
    data[i] as u16 + 256 * (data[i + 1] as u16)
}

fn read_signed(b: u8) -> (r: i8)
    ensures
        r == signed_byte(b),
{
    if b < 128 {
        b as i8
    } else {
        (b as i16 - 256) as i8
    }
}

/// Best-effort decode of a common HID digitizer report. Layouts differ
/// between devices; see [`contact_in`] for the one that is read.
pub fn decode_contact(data: &[u8]) -> (r: Option<Contact>)
    ensures
        r == contact_in(data@),
{
    if data.len() < 6 {
        return None;
    }
    let flags = data[1];
    let pressure: u16 = if data.len() >= 8 {
        let raw = read_le16(data, 6);
        if raw > FULL_PRESSURE {
            FULL_PRESSURE
        } else {
            raw
        }
    } else {
        0
    };
    let tilt_x: i8 = if data.len() >= 9 {
        read_signed(data[8])
    } else {
        0
    };
    let tilt_y: i8 = if data.len() >= 10 {
        read_signed(data[9])
    } else {
        0
    };
    Some(
        Contact {
            down: flags & 0x01 != 0,
            in_range: flags & 0x10 != 0,
            barrel: flags & 0x02 != 0,
            eraser: flags & 0x04 != 0,
            x: read_le16(data, 2),
            y: read_le16(data, 4),
            pressure,
            tilt_x,
            tilt_y,
        },
    )
}

/// A decoded pressure is a fraction of full pressure: it never exceeds it.
pub proof fn law_pressure_is_normalized(data: Seq<u8>)
    ensures
        contact_in(data) matches Some(c) ==> c.pressure <= FULL_PRESSURE,
{
}

/// What each kind of event does to the snapshot: positions and contacts are the
/// latest ones, motion and wheel are sums, the button state is taken with a
/// button transition only, and reports are counted.
pub proof fn law_event_goes_to_its_field(s: InputSnapshot, ev: EventView)
    requires
        s.fits(ev),
    ensures
        ({
            let t = s.applied(ev);
            &&& t.mouse == (match ev {
                EventView::MouseMove { x, y } => (x, y),
                _ => s.mouse,
            })
            &&& ev matches EventView::RawMouse { dx, dy, flags, buttons } ==> t.raw_delta.0
                == s.raw_delta.0 + dx && t.raw_delta.1 == s.raw_delta.1 + dy && t.buttons == (if flags
                != 0 {
                buttons
            } else {
                s.buttons
            })
            &&& !(ev is RawMouse) ==> t.raw_delta == s.raw_delta && t.buttons == s.buttons
            &&& t.wheel == s.wheel + (match ev {
                EventView::MouseWheel { delta } => delta as int,
                _ => 0,
            })
            &&& t.pen == (match ev {
                EventView::Pen { contact } => Some(contact),
                _ => s.pen,
            })
            &&& t.touch == (match ev {
                EventView::Touch { contact } => Some(contact),
                _ => s.touch,
            })
            &&& t.hid_reports == s.hid_reports + (if ev is HidRaw {
                1int
            } else {
                0
            })
            &&& ev is Pen ==> t.last_device@ == "pen"@
            &&& ev is Touch ==> t.last_device@ == "touch"@
            &&& ev is HidRaw ==> t.last_device@ == "hid"@
            &&& ev is MouseMove || ev is MouseButton || ev is MouseWheel || ev is RawMouse
                ==> t.last_device@ == "mouse"@
        }),
{
}

/// Every event is its own view.
pub proof fn law_view_keeps_the_event(ev: InputEvent)
    ensures
        ev matches InputEvent::MouseMove { x, y } ==> ev@ == (EventView::MouseMove { x, y }),
        ev matches InputEvent::MouseButton { left, right, down } ==> ev@ == (
        EventView::MouseButton { left, right, down }),
        ev matches InputEvent::MouseWheel { delta } ==> ev@ == (EventView::MouseWheel { delta }),
        ev matches InputEvent::RawMouse { dx, dy, flags, buttons } ==> ev@ == (
        EventView::RawMouse { dx, dy, flags, buttons }),
        ev matches InputEvent::Pen { contact } ==> ev@ == (EventView::Pen { contact }),
        ev matches InputEvent::Touch { contact } ==> ev@ == (EventView::Touch { contact }),
        ev matches InputEvent::HidRaw { usage_page, usage, data } ==> ev@ == (EventView::HidRaw {
            usage_page,
            usage,
            data: data@,
        }),
{
}

/// The five hotkeys have different numbers, and zero is none of them.
pub proof fn law_hotkey_numbers_differ(a: usize, b: usize)
    ensures
        hotkey_of(0) is None,
        hotkey_of(a) is Some && hotkey_of(a) == hotkey_of(b) ==> a == b,
        hotkey_of(a) is Some <==> 1 <= a <= 5,
{
}

/// A report of six bytes or more holds a contact: the button byte decides the
/// four flags bit by bit, the coordinates follow with their low byte first, then
/// the pressure, cut off at 4096, and the two tilts as signed bytes; what the
/// report does not reach is zero.
pub proof fn law_contact_reads_the_report(data: Seq<u8>)
    ensures
        contact_in(data) is Some <==> data.len() >= 6,
        contact_in(data) matches Some(c) ==> {
            let raw = data[6] + 256 * data[7];
            &&& c.down <==> data[1] % 2 == 1
            &&& c.barrel <==> data[1] / 2 % 2 == 1
            &&& c.eraser <==> data[1] / 4 % 2 == 1
            &&& c.in_range <==> data[1] / 16 % 2 == 1
            &&& c.x == data[2] + 256 * data[3]
            &&& c.y == data[4] + 256 * data[5]
            &&& data.len() >= 8 && raw <= 4096 ==> c.pressure == raw
            &&& data.len() >= 8 && raw > 4096 ==> c.pressure == 4096
            &&& data.len() < 8 ==> c.pressure == 0
            &&& data.len() >= 9 ==> c.tilt_x == data[8] || c.tilt_x == data[8] - 256
            &&& data.len() < 9 ==> c.tilt_x == 0
            &&& data.len() >= 10 ==> c.tilt_y == data[9] || c.tilt_y == data[9] - 256
            &&& data.len() < 10 ==> c.tilt_y == 0
        },
{
    let b = data[1];
    assert((b & 0x01 != 0 <==> b % 2 == 1) && (b & 0x02 != 0 <==> b / 2 % 2 == 1) && (b & 0x04 != 0
        <==> b / 4 % 2 == 1) && (b & 0x10 != 0 <==> b / 16 % 2 == 1)) by (bit_vector);
}

/// The snapshot has room for every event but one whose sum or count would leave
/// its range.
pub proof fn law_snapshot_has_room(s: InputSnapshot, ev: EventView)
    ensures
        ev is MouseMove || ev is MouseButton || ev is Pen || ev is Touch ==> s.fits(ev),
        ev is HidRaw ==> (s.fits(ev) <==> s.hid_reports + 1 <= u64::MAX),
        ev matches EventView::MouseWheel { delta } ==> (s.fits(ev) <==> i32::MIN <= s.wheel + delta
            <= i32::MAX),
        ev matches EventView::RawMouse { dx, dy, flags, buttons } ==> (s.fits(ev) <==> i64::MIN
            <= s.raw_delta.0 + dx <= i64::MAX && i64::MIN <= s.raw_delta.1 + dy <= i64::MAX),
{
}

} // verus!
