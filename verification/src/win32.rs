//! The numbers of the Windows API that the decisions depend on.

use vstd::prelude::*;

verus! {

// Window messages.
pub const WM_INPUT: u32 = 0x00FF;
pub const WM_KEYDOWN: u32 = 0x0100;
pub const WM_MOUSEMOVE: u32 = 0x0200;
pub const WM_LBUTTONDOWN: u32 = 0x0201;
pub const WM_LBUTTONUP: u32 = 0x0202;
pub const WM_RBUTTONDOWN: u32 = 0x0204;
pub const WM_RBUTTONUP: u32 = 0x0205;
pub const WM_MBUTTONDOWN: u32 = 0x0207;
pub const WM_MBUTTONUP: u32 = 0x0208;
pub const WM_MOUSEWHEEL: u32 = 0x020A;
pub const WM_XBUTTONDOWN: u32 = 0x020B;
pub const WM_XBUTTONUP: u32 = 0x020C;
pub const WM_MOUSEHWHEEL: u32 = 0x020E;

// Key state bits of a mouse message's wParam.
pub const MK_LBUTTON: u32 = 0x0001;
pub const MK_RBUTTON: u32 = 0x0002;
pub const MK_SHIFT: usize = 0x0004;
pub const MK_CONTROL: usize = 0x0008;
pub const MK_MBUTTON: u32 = 0x0010;
pub const MK_XBUTTON1: u32 = 0x0020;
pub const MK_XBUTTON2: u32 = 0x0040;

// Virtual key codes.
pub const VK_SHIFT: u32 = 0x10;
pub const VK_CONTROL: u32 = 0x11;
pub const VK_ESCAPE: u32 = 0x1B;

// Raw input.
pub const MOUSE_MOVE_ABSOLUTE: u16 = 0x0001;
pub const RI_MOUSE_WHEEL: u16 = 0x0400;
pub const RIM_TYPEHID: u32 = 2;

// HID usage pages and usages of the devices that are subscribed to.
pub const HID_USAGE_PAGE_GENERIC: u16 = 0x01;
pub const HID_USAGE_GENERIC_MOUSE: u16 = 0x02;
pub const HID_USAGE_PAGE_DIGITIZER: u16 = 0x0D;
pub const HID_USAGE_DIGITIZER_PEN: u16 = 0x02;
pub const HID_USAGE_DIGITIZER_TOUCH_SCREEN: u16 = 0x04;

// Extended window styles.
pub const WS_EX_TRANSPARENT: isize = 0x0000_0020;
pub const WS_EX_TOOLWINDOW: isize = 0x0000_0080;
pub const WS_EX_LAYERED: isize = 0x0008_0000;

} // verus!
