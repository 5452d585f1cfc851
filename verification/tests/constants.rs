use custom_cursor_overlay::win32;
use windows_sys::Win32::UI::Input;
use windows_sys::Win32::UI::Input::KeyboardAndMouse;
use windows_sys::Win32::UI::WindowsAndMessaging;

#[test]
fn message_numbers_are_those_of_the_api() {
    let ours = [
        win32::WM_INPUT,
        win32::WM_KEYDOWN,
        win32::WM_MOUSEMOVE,
        win32::WM_LBUTTONDOWN,
        win32::WM_LBUTTONUP,
        win32::WM_RBUTTONDOWN,
        win32::WM_RBUTTONUP,
        win32::WM_MBUTTONDOWN,
        win32::WM_MBUTTONUP,
        win32::WM_XBUTTONDOWN,
        win32::WM_XBUTTONUP,
        win32::WM_MOUSEWHEEL,
        win32::WM_MOUSEHWHEEL,
    ];
    let theirs = [
        WindowsAndMessaging::WM_INPUT,
        WindowsAndMessaging::WM_KEYDOWN,
        WindowsAndMessaging::WM_MOUSEMOVE,
        WindowsAndMessaging::WM_LBUTTONDOWN,
        WindowsAndMessaging::WM_LBUTTONUP,
        WindowsAndMessaging::WM_RBUTTONDOWN,
        WindowsAndMessaging::WM_RBUTTONUP,
        WindowsAndMessaging::WM_MBUTTONDOWN,
        WindowsAndMessaging::WM_MBUTTONUP,
        WindowsAndMessaging::WM_XBUTTONDOWN,
        WindowsAndMessaging::WM_XBUTTONUP,
        WindowsAndMessaging::WM_MOUSEWHEEL,
        WindowsAndMessaging::WM_MOUSEHWHEEL,
    ];
    assert_eq!(ours, theirs);
}

#[test]
fn styles_and_keys_are_those_of_the_api() {
    assert_eq!(win32::WS_EX_TRANSPARENT, WindowsAndMessaging::WS_EX_TRANSPARENT as isize);
    assert_eq!(win32::WS_EX_TOOLWINDOW, WindowsAndMessaging::WS_EX_TOOLWINDOW as isize);
    assert_eq!(win32::WS_EX_LAYERED, WindowsAndMessaging::WS_EX_LAYERED as isize);
    assert_eq!(win32::VK_SHIFT, KeyboardAndMouse::VK_SHIFT as u32);
    assert_eq!(win32::VK_CONTROL, KeyboardAndMouse::VK_CONTROL as u32);
    assert_eq!(win32::VK_ESCAPE, KeyboardAndMouse::VK_ESCAPE as u32);
    assert_eq!(win32::MOUSE_MOVE_ABSOLUTE, Input::MOUSE_MOVE_ABSOLUTE);
    assert_eq!(win32::RI_MOUSE_WHEEL as u32, WindowsAndMessaging::RI_MOUSE_WHEEL);
    assert_eq!(win32::RIM_TYPEHID, Input::RIM_TYPEHID);
}
