use custom_cursor_overlay::platform::{
    apply_passthrough, create_hcursor_from_rgba, dig, find_window_by_title, forward_mouse, pick_window,
    polish_overlay_window, set_cursor_handle, set_forwarding, window_below_at,
    Candidate, CursorChoice, Dig, Forwarding, Post, StackedWindow, TopWindow,
};
use custom_cursor_overlay::win32::{
    WM_LBUTTONDOWN, WM_MOUSEHWHEEL, WM_MOUSEMOVE, WM_MOUSEWHEEL, WM_XBUTTONDOWN,
};

fn window(hwnd: usize, visible: bool, iconic: bool, title: &str) -> TopWindow {
    TopWindow { hwnd, visible, iconic, title: title.encode_utf16().collect() }
}

#[test]
fn title_search_ignores_case() {
    let windows = vec![
        window(1, true, false, "Notepad"),
        window(2, true, false, "My DRAWING Pad"),
        window(3, true, false, "drawing board"),
    ];
    assert_eq!(find_window_by_title(&windows, "drawing"), Some(2));
    assert_eq!(find_window_by_title(&windows, "Drawing B"), Some(3));
    assert_eq!(find_window_by_title(&windows, "PAD"), Some(1));
    assert_eq!(find_window_by_title(&windows, "paint"), None);
}

#[test]
fn title_search_maps_letters_beyond_ascii() {
    let windows = vec![window(1, true, false, "ÜBERSICHT 필기"), window(2, true, false, "x")];
    assert_eq!(find_window_by_title(&windows, "übersicht 필"), Some(1));
    // A lone surrogate is replaced and does not hide the rest of the title.
    let mut broken = window(4, true, false, "Canvas");
    broken.title.insert(0, 0xD800);
    assert_eq!(find_window_by_title(&vec![broken], "\u{FFFD}canvas"), Some(4));
    // A surrogate pair is one character; two high surrogates are two broken ones.
    let mut paired = window(5, true, false, "");
    paired.title = vec![0xD834, 0xDD1E, 0x41, 0xD834, 0xD834, 0x42, 0xDD1E];
    let text = "\u{1D11E}A\u{FFFD}\u{FFFD}B\u{FFFD}";
    assert_eq!(find_window_by_title(&vec![paired], text), Some(5));
}

#[test]
fn hidden_and_minimized_windows_are_ignored() {
    let windows = vec![
        window(1, false, false, "Canvas"),
        window(2, true, true, "Canvas"),
        window(3, true, false, "Canvas"),
    ];
    assert_eq!(find_window_by_title(&windows, "canvas"), Some(3));
    assert_eq!(find_window_by_title(&windows, ""), None);
    assert_eq!(find_window_by_title(&vec![], "canvas"), None);
    assert_eq!(find_window_by_title(&vec![window(0, true, false, "Canvas")], "canvas"), None);
}

#[test]
fn picking_compares_lower_case_titles() {
    let candidate = |hwnd: usize, title: &str| Candidate {
        hwnd,
        visible: true,
        iconic: false,
        title: title.to_string(),
    };
    let windows = vec![candidate(1, "one two"), candidate(2, "two three")];
    assert_eq!(pick_window(&windows, "two"), Some(1));
    assert_eq!(pick_window(&windows, "three"), Some(2));
    assert_eq!(pick_window(&windows, "Two"), None);
    assert_eq!(pick_window(&windows, ""), None);
}

#[test]
fn passthrough_sets_and_clears_the_transparent_bit() {
    assert_eq!(apply_passthrough(0x0100, true), 0x8_0120);
    assert_eq!(apply_passthrough(0x8_0120, false), 0x8_0100);
    assert_eq!(apply_passthrough(0x20, false), 0);
    let layered = 0x8_0088;
    assert_eq!(apply_passthrough(apply_passthrough(layered, true), false), layered);
    assert_eq!(polish_overlay_window(0x0001), 0x8_0081);
}

#[test]
fn null_cursor_is_the_arrow() {
    assert_eq!(set_cursor_handle(Some(42)), CursorChoice::Handle(42));
    assert_eq!(set_cursor_handle(Some(0)), CursorChoice::Arrow);
    assert_eq!(set_cursor_handle(None), CursorChoice::Arrow);
}

#[test]
fn cursor_pixels_are_premultiplied() {
    let rgba = [200, 100, 50, 128, 1, 2, 3, 255, 9, 9, 9, 0];
    let image = create_hcursor_from_rgba(&rgba, 2, 2, 1, 0);
    assert_eq!(
        image.color,
        vec![25, 50, 100, 128, 3, 2, 1, 255, 0, 0, 0, 0, 0, 0, 0, 0]
    );
    assert_eq!((image.w, image.h, image.hot_x, image.hot_y), (2, 2, 1, 0));
    assert_eq!(image.mask, vec![0u8; 8]);
}

#[test]
fn mask_rows_are_padded() {
    let image = create_hcursor_from_rgba(&[], 33, 3, 0, 0);
    assert_eq!(image.mask, vec![0u8; 24]);
    assert_eq!(image.color, vec![0u8; 33 * 3 * 4]);
}

#[test]
fn surplus_pixels_are_ignored() {
    let image = create_hcursor_from_rgba(&[5, 6, 7, 255, 8, 9, 10, 255, 1], 1, 1, 0, 0);
    assert_eq!(image.color, vec![7, 6, 5, 255]);
}

fn stacked(hwnd: usize, rect: (i32, i32, i32, i32)) -> StackedWindow {
    StackedWindow { hwnd, visible: true, iconic: false, rect: Some(rect) }
}

#[test]
fn topmost_window_under_the_point() {
    let mut stack = vec![
        stacked(1, (0, 0, 100, 100)),
        stacked(2, (50, 50, 150, 150)),
        stacked(3, (0, 0, 200, 200)),
    ];
    assert_eq!(window_below_at(&stack, 60, 60, 9), Some(1));
    assert_eq!(window_below_at(&stack, 60, 60, 1), Some(2));
    assert_eq!(window_below_at(&stack, 100, 60, 9), Some(2));
    assert_eq!(window_below_at(&stack, 199, 199, 9), Some(3));
    assert_eq!(window_below_at(&stack, 200, 0, 9), None);
    assert_eq!(window_below_at(&stack, -1, 0, 9), None);
    stack[0].visible = false;
    stack[1].iconic = true;
    assert_eq!(window_below_at(&stack, 60, 60, 9), Some(3));
    stack[2].rect = None;
    assert_eq!(window_below_at(&stack, 60, 60, 9), None);
}

#[test]
fn digging_stops_at_the_deepest_child() {
    // Window 7 holds 8, which holds 9; 9 has no child under the point.
    let child_of = |hwnd: usize| if hwnd < 9 { hwnd + 1 } else { hwnd };
    let mut current = 7;
    while let Dig::Deeper(next) = dig(current, child_of(current)) {
        current = next;
    }
    assert_eq!(current, 9);
    assert_eq!(dig(7, 8), Dig::Deeper(8));
    assert_eq!(dig(7, 7), Dig::Done(7));
    assert_eq!(dig(7, 0), Dig::Done(7));
}

#[test]
fn replay_packs_the_position() {
    let mut state = Forwarding { on: false, our_hwnd: 0 };
    let at = |state: &Forwarding, msg: u32| forward_mouse(state, Some(5), (300, 400), (-2, 7), msg, 3);
    assert_eq!(at(&state, WM_MOUSEMOVE), None);
    set_forwarding(&mut state, true, 11);
    assert_eq!(state, Forwarding { on: true, our_hwnd: 11 });
    let moved = Post {
        hwnd: 5,
        activate: false,
        msg: WM_MOUSEMOVE,
        wparam: 3,
        lparam: 0x0007_FFFE,
    };
    assert_eq!(at(&state, WM_MOUSEMOVE), Some(moved));
    for msg in [WM_MOUSEWHEEL, WM_MOUSEHWHEEL] {
        assert_eq!(at(&state, msg), Some(Post { msg, lparam: (400 << 16) | 300, ..moved }));
    }
    for msg in [WM_LBUTTONDOWN, WM_XBUTTONDOWN] {
        assert_eq!(at(&state, msg), Some(Post { msg, activate: true, ..moved }));
    }
    assert_eq!(forward_mouse(&state, None, (1, 2), (3, 4), WM_MOUSEMOVE, 0), None);
    set_forwarding(&mut state, false, 0);
    assert_eq!(at(&state, WM_LBUTTONDOWN), None);
}
