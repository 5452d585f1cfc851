//! The decisions of the platform layer: which window is meant, what its style
//! bits become, what a native cursor is built from, and how a pointer message
//! is replayed to the window below.

use vstd::prelude::*;

use crate::hooks;
use crate::win32::{
    WM_LBUTTONDOWN, WM_MBUTTONDOWN, WM_MOUSEHWHEEL, WM_MOUSEWHEEL, WM_RBUTTONDOWN,
    WM_XBUTTONDOWN, WS_EX_LAYERED, WS_EX_TOOLWINDOW, WS_EX_TRANSPARENT,
};

verus! {

// ---------------------------------------------------------------------------
// Finding the target window
// ---------------------------------------------------------------------------

/// What [`str::to_lowercase`] makes of a text.
pub uninterp spec fn lowercased(text: Seq<char>) -> Seq<char>;

/// Is this the first unit of a surrogate pair?
pub open spec fn is_high_surrogate(unit: u16) -> bool {
    0xD800 <= unit < 0xDC00
}

/// Is this the second unit of a surrogate pair?
pub open spec fn is_low_surrogate(unit: u16) -> bool {
    0xDC00 <= unit < 0xE000
}

/// The text that a sequence of UTF-16 units stands for: a surrogate pair is one
/// character, any other unit is a character of its own, and an unpaired
/// surrogate reads as U+FFFD.
pub open spec fn utf16_text(units: Seq<u16>) -> Seq<char>
    decreases units.len(),
{
    if units.len() == 0 {
        Seq::empty()
    } else if units.len() > 1 && is_high_surrogate(units[0]) && is_low_surrogate(units[1]) {
        let c = 0x1_0000 + (units[0] - 0xD800) * 0x400 + (units[1] - 0xDC00);
        seq![c as char] + utf16_text(units.skip(2))
    } else if is_high_surrogate(units[0]) || is_low_surrogate(units[0]) {
        seq!['\u{FFFD}'] + utf16_text(units.skip(1))
    } else {
        seq![units[0] as char] + utf16_text(units.skip(1))
    }
}

/// Calls [`str::to_lowercase`]. The result depends on the text alone; which
/// characters are mapped to which is left to the standard library.
#[verifier::external_body]
fn to_lowercase(text: &str) -> (r: String)
    ensures
        r@ == lowercased(text@),
{
    text.to_lowercase()
}

/// Calls [`String::from_utf16_lossy`], which decodes UTF-16 and replaces
/// unpaired surrogates by U+FFFD.
#[verifier::external_body]
fn from_utf16_lossy(units: &[u16]) -> (r: String)
    ensures
        r@ == utf16_text(units@),
{
    String::from_utf16_lossy(units)
}

/// Does `sub` occur in `text`?
pub open spec fn occurs_in(sub: Seq<char>, text: Seq<char>) -> bool {
    exists|i: int|
        0 <= i && i + sub.len() <= text.len() && #[trigger] text.subrange(i, i + sub.len()) == sub
}

/// Calls [`str::contains`], which says whether the pattern matches a sub-slice
/// of the text.
#[verifier::external_body]
fn contains(text: &str, sub: &str) -> (r: bool)
    ensures
        r == occurs_in(sub@, text@),
{
    text.contains(sub)
}

/// A top-level window, with its title in UTF-16.
#[derive(Debug)]
pub struct TopWindow {
    /// Window handle.
    pub hwnd: usize,
    /// Is it visible?
    pub visible: bool,
    /// Is it minimized?
    pub iconic: bool,
    /// Its title.
    pub title: Vec<u16>,
}

/// A top-level window, with its title in lower case.
#[derive(Debug)]
pub struct Candidate {
    /// Window handle.
    pub hwnd: usize,
    /// Is it visible?
    pub visible: bool,
    /// Is it minimized?
    pub iconic: bool,
    /// Its title in lower case.
    pub title: String,
}

/// What the search reads of a window.
pub struct CandidateView {
    pub hwnd: usize,
    pub visible: bool,
    pub iconic: bool,
    pub title: Seq<char>,
}

impl CandidateView {
    /// Is this a visible, non-minimized window with `sub` in its title?
    pub open spec fn is_match(self, sub: Seq<char>) -> bool {
        self.visible && !self.iconic && occurs_in(sub, self.title)
    }
}

impl View for Candidate {
    type V = CandidateView;

    open spec fn view(&self) -> CandidateView {
        CandidateView {
            hwnd: self.hwnd,
            visible: self.visible,
            iconic: self.iconic,
            title: self.title@,
        }
    }
}

impl TopWindow {
    /// The window with its title decoded and in lower case.
    pub open spec fn candidate(self) -> CandidateView {
        CandidateView {
            hwnd: self.hwnd,
            visible: self.visible,
            iconic: self.iconic,
            title: lowercased(utf16_text(self.title@)),
        }
    }
}

/// The first window with `sub` in its title, if any; nothing matches an empty
/// text, and a null handle stands for no window.
pub open spec fn first_match(windows: Seq<CandidateView>, sub: Seq<char>) -> Option<usize>
    decreases windows.len(),
{
    if sub.len() == 0 || windows.len() == 0 {
        None
    } else if windows[0].is_match(sub) {
        if windows[0].hwnd != 0 {
            Some(windows[0].hwnd)
        } else {
            None
        }
    } else {
        first_match(windows.drop_first(), sub)
    }
}

/// The contents of a list of candidates.
pub open spec fn candidate_views(windows: Seq<Candidate>) -> Seq<CandidateView> {
    Seq::new(windows.len(), |i: int| windows[i]@)
}

/// The contents of a list of windows.
pub open spec fn window_views(windows: Seq<TopWindow>) -> Seq<CandidateView> {
    Seq::new(windows.len(), |i: int| windows[i].candidate())
}

/// Pick the first visible, non-minimized window whose title contains `sub`.
pub fn pick_window(windows: &Vec<Candidate>, sub: &str) -> (r: Option<usize>)
    ensures
        r == first_match(candidate_views(windows@), sub@),
{
    if sub.is_empty() {
        return None;
    }
    let ghost all = candidate_views(windows@);
    let mut i: usize = 0;
    assert(all.skip(0) =~= all);
    while i < windows.len()
        invariant
            i <= windows@.len(),
            sub@.len() != 0,
            all == candidate_views(windows@),
            first_match(all, sub@) == first_match(all.skip(i as int), sub@),
        decreases windows@.len() - i,
    {
        let w = &windows[i];
        assert(all.skip(i as int)[0] == w@);
        assert(all.skip(i as int).drop_first() =~= all.skip(i + 1));
        if w.visible && !w.iconic && contains(w.title.as_str(), sub) {
            return if w.hwnd != 0 {
                Some(w.hwnd)
            } else {
                None
            };
        }
        i = i + 1;
    }
    None
}

/// Find a visible, non-minimized top-level window whose title contains `sub`
/// (case-insensitive), in the order of `windows`. Returns its handle.
pub fn find_window_by_title(windows: &Vec<TopWindow>, sub: &str) -> (r: Option<usize>)
    ensures
        r == first_match(window_views(windows@), lowercased(sub@)),
{
    let search = to_lowercase(sub);
    let mut candidates: Vec<Candidate> = Vec::new();
    let mut i: usize = 0;
    while i < windows.len()
        invariant
            i <= windows@.len(),
            candidates@.len() == i,
            forall|j: int| 0 <= j < i ==> #[trigger] candidates@[j]@ == windows@[j].candidate(),
        decreases windows@.len() - i,
    {
        let w = &windows[i];
        let text = from_utf16_lossy(w.title.as_slice());
        candidates.push(
            Candidate {
                hwnd: w.hwnd,
                visible: w.visible,
                iconic: w.iconic,
                title: to_lowercase(text.as_str()),
            },
        );
        i = i + 1;
    }
    assert(candidate_views(candidates@) =~= window_views(windows@));
    pick_window(&candidates, search.as_str())
}

/// A window that is found is visible, not minimized and has the text in its
/// title, and no window before it qualifies; nothing is found only where no
/// window qualifies, the text is empty, or the first one that qualifies has a
/// null handle.
pub proof fn law_found_window_qualifies(windows: Seq<CandidateView>, sub: Seq<char>)
    ensures
        first_match(windows, sub) matches Some(h) ==> h != 0 && sub.len() > 0 && exists|i: int|
            is_first_match(windows, sub, i) && windows[i].hwnd == h,
        first_match(windows, sub) is None ==> sub.len() == 0 || forall|i: int|
            is_first_match(windows, sub, i) ==> windows[i].hwnd == 0,
    decreases windows.len(),
{
    if sub.len() > 0 && windows.len() > 0 {
        if windows[0].is_match(sub) {
            assert(is_first_match(windows, sub, 0));
            assert forall|i: int| is_first_match(windows, sub, i) implies i == 0 by {
                if i > 0 {
                    assert(!windows[0].is_match(sub));
                }
            }
        } else {
            let rest = windows.drop_first();
            law_found_window_qualifies(rest, sub);
            assert forall|i: int| #[trigger] is_first_match(rest, sub, i) implies is_first_match(
                windows,
                sub,
                i + 1,
            ) by {
                assert forall|j: int| 0 <= j < i + 1 implies !(#[trigger] windows[j]).is_match(
                    sub,
                ) by {
                    if j > 0 {
                        assert(rest[j - 1] == windows[j]);
                    }
                }
                assert(rest[i] == windows[i + 1]);
            }
            assert forall|i: int| #[trigger] is_first_match(windows, sub, i) implies i > 0
                && is_first_match(rest, sub, i - 1) by {
                assert(rest[i - 1] == windows[i]);
                assert forall|j: int| 0 <= j < i - 1 implies !(#[trigger] rest[j]).is_match(sub) by {
                    assert(windows[j + 1] == rest[j]);
                }
            }
            if let Some(h) = first_match(windows, sub) {
                let i = choose|i: int| is_first_match(rest, sub, i) && rest[i].hwnd == h;
                assert(is_first_match(windows, sub, i + 1));
                assert(windows[i + 1].hwnd == h);
            } else {
                assert forall|i: int| is_first_match(windows, sub, i) implies windows[i].hwnd
                    == 0 by {
                    assert(is_first_match(rest, sub, i - 1));
                    assert(rest[i - 1] == windows[i]);
                }
            }
        }
    }
}

/// Is `i` the first window with `sub` in its title?
pub open spec fn is_first_match(windows: Seq<CandidateView>, sub: Seq<char>, i: int) -> bool {
    &&& 0 <= i < windows.len()
    &&& windows[i].is_match(sub)
    &&& forall|j: int| 0 <= j < i ==> !(#[trigger] windows[j]).is_match(sub)
}

/// Do the two windows differ at most in the case of their titles?
pub open spec fn alike_but_for_case(a: TopWindow, b: TopWindow) -> bool {
    &&& a.hwnd == b.hwnd
    &&& a.visible == b.visible
    &&& a.iconic == b.iconic
    &&& lowercased(utf16_text(a.title@)) == lowercased(utf16_text(b.title@))
}

/// The search ignores case, in the titles as well as in the text: windows whose
/// titles are alike in lower case, searched for texts that are alike in lower
/// case, give the same result.
pub proof fn law_search_ignores_case(
    a: Seq<TopWindow>,
    b: Seq<TopWindow>,
    text: Seq<char>,
    same_text: Seq<char>,
)
    requires
        a.len() == b.len(),
        forall|i: int| 0 <= i < a.len() ==> alike_but_for_case(#[trigger] a[i], b[i]),
        lowercased(text) == lowercased(same_text),
    ensures
        first_match(window_views(a), lowercased(text)) == first_match(
            window_views(b),
            lowercased(same_text),
        ),
{
    assert(window_views(a) =~= window_views(b)) by {
        assert forall|i: int| 0 <= i < a.len() implies a[i].candidate() == b[i].candidate() by {
            assert(alike_but_for_case(a[i], b[i]));
        }
    }
}

// ---------------------------------------------------------------------------
// Window styles
// ---------------------------------------------------------------------------

/// The extended style that forces click pass-through on or off: the
/// transparent bit follows `passthrough`, and switching it on also makes sure
/// that the window is layered.
pub fn apply_passthrough(style: isize, passthrough: bool) -> (r: isize)
    ensures
        r == (if passthrough {
            style | (WS_EX_TRANSPARENT | WS_EX_LAYERED)
        } else {
            style & !WS_EX_TRANSPARENT
        }),
{
    if passthrough {
        style | (WS_EX_TRANSPARENT | WS_EX_LAYERED)
    } else {
        style & !WS_EX_TRANSPARENT
    }
}

/// The extended style of a proper transparent tool window: layered (for
/// alpha), and neither in the taskbar nor in Alt-Tab.
pub fn polish_overlay_window(style: isize) -> (r: isize)
    ensures
        r == style | (WS_EX_LAYERED | WS_EX_TOOLWINDOW),
{
    style | (WS_EX_LAYERED | WS_EX_TOOLWINDOW)
}

/// Switching pass-through decides the transparent bit and nothing else but the
/// layered bit, which it never takes away; switching it off again undoes it on
/// a layered window.
pub proof fn law_passthrough_bits(style: isize)
    ensures
        ({
            let on = style | (WS_EX_TRANSPARENT | WS_EX_LAYERED);
            let off = on & !WS_EX_TRANSPARENT;
            &&& on & WS_EX_TRANSPARENT == WS_EX_TRANSPARENT
            &&& on & WS_EX_LAYERED == WS_EX_LAYERED
            &&& off & WS_EX_TRANSPARENT == 0
            &&& off & WS_EX_LAYERED == WS_EX_LAYERED
            &&& off == (style | WS_EX_LAYERED) & !WS_EX_TRANSPARENT
            &&& style & WS_EX_LAYERED == WS_EX_LAYERED && style & WS_EX_TRANSPARENT == 0 ==> off
                == style
        }),
{
    assert((style | (0x20isize | 0x80000isize)) & 0x20isize == 0x20isize) by (bit_vector);
    assert((style | (0x20isize | 0x80000isize)) & 0x80000isize == 0x80000isize) by (bit_vector);
    assert(((style | (0x20isize | 0x80000isize)) & !0x20isize) & 0x20isize == 0) by (bit_vector);
    assert(((style | (0x20isize | 0x80000isize)) & !0x20isize) & 0x80000isize == 0x80000isize)
        by (bit_vector);
    assert((style | (0x20isize | 0x80000isize)) & !0x20isize == (style | 0x80000isize) & !0x20isize)
        by (bit_vector);
    assert(style & 0x80000isize == 0x80000isize && style & 0x20isize == 0 ==> (style | (0x20isize
        | 0x80000isize)) & !0x20isize == style) by (bit_vector);
}

// ---------------------------------------------------------------------------
// Native cursor
// ---------------------------------------------------------------------------

/// A cursor to be shown by the system.
#[derive(Clone, Copy, Debug, PartialEq, Eq, Structural)]
pub enum CursorChoice {
    /// The custom cursor with this handle.
    Handle(usize),
    /// The default arrow.
    Arrow,
}

/// The cursor for a custom handle, or the default arrow where there is none.
pub fn set_cursor_handle(hcursor: Option<usize>) -> (r: CursorChoice)
    ensures
        r == (match hcursor {
            Some(h) if h != 0 => CursorChoice::Handle(h),
            _ => CursorChoice::Arrow,
        }),
{
    match hcursor {
        Some(h) => if h != 0 {
            CursorChoice::Handle(h)
        } else {
            CursorChoice::Arrow
        },
        None => CursorChoice::Arrow,
    }
}

/// Everything that a native cursor is created from.
#[derive(Debug)]
pub struct CursorImage {
    /// Width in pixels.
    pub w: u16,
    /// Height in pixels.
    pub h: u16,
    /// Hotspot.
    pub hot_x: u16,
    /// Hotspot.
    pub hot_y: u16,
    /// Premultiplied BGRA pixels, row by row from the top.
    pub color: Vec<u8>,
    /// One-bit mask, rows padded to 32 bits.
    pub mask: Vec<u8>,
}

/// A color channel multiplied by the opacity.
pub open spec fn premultiplied(channel: u8, alpha: u8) -> u8 {
    (channel * alpha / 255) as u8
}

/// Multiply a color channel by the opacity.
pub fn premultiply_channel(channel: u8, alpha: u8) -> (r: u8)
    ensures
        r == premultiplied(channel, alpha),
{
    assert(0 <= channel * alpha <= 255 * 255) by (nonlinear_arith)
        requires
            0 <= channel <= 255,
            0 <= alpha <= 255,
    ;
    (channel as u32 * alpha as u32 / 255) as u8
}

/// Byte `k` of pixel `p` of the straight-RGBA image `rgba`, as premultiplied
/// BGRA; pixels that the image does not have are transparent.
pub open spec fn bgra_byte(rgba: Seq<u8>, p: int, k: int) -> u8 {
    if p * 4 + 4 > rgba.len() {
        0
    } else if k == 3 {
        rgba[p * 4 + 3]
    } else {
        premultiplied(rgba[p * 4 + (2 - k)], rgba[p * 4 + 3])
    }
}

/// Bytes in a row of a one-bit mask that is `w` pixels wide.
pub open spec fn mask_row(w: int) -> int {
    (w + 31) / 32 * 4
}

/// Prepare a native cursor from straight RGBA pixels: the color bitmap in the
/// system's premultiplied BGRA format and an empty mask (the opacity comes
/// from the color bitmap).
pub fn create_hcursor_from_rgba(rgba: &[u8], w: u16, h: u16, hot_x: u16, hot_y: u16) -> (r:
    CursorImage)
    requires
        w * h * 4 <= isize::MAX,
    ensures
        r.w == w && r.h == h && r.hot_x == hot_x && r.hot_y == hot_y,
        r.color@.len() == w * h * 4,
        forall|p: int, k: int|
            0 <= p < w * h && 0 <= k < 4 ==> #[trigger] r.color@[p * 4 + k] == bgra_byte(
                rgba@,
                p,
                k,
            ),
        r.mask@ == Seq::new((mask_row(w as int) * h) as nat, |i: int| 0u8),
{
    assert(0 <= w * h) by (nonlinear_arith)
        requires
            0 <= w,
            0 <= h,
    ;
    let n: usize = w as usize * h as usize;
    let mut color: Vec<u8> = vec![0u8; n * 4];
    let mut p: usize = 0;
    while p < n && rgba.len() - p * 4 >= 4
        invariant
            n == w * h,
            n * 4 <= isize::MAX,
            p <= n,
            p * 4 <= rgba@.len(),
            color@.len() == n * 4,
            forall|q: int, k: int|
                0 <= q < n && 0 <= k < 4 ==> #[trigger] color@[q * 4 + k] == (if q < p {
                    bgra_byte(rgba@, q, k)
                } else {
                    0u8
                }),
        decreases n - p,
    {
        let i: usize = p * 4;
        let a = rgba[i + 3];
        let ghost before = color@;
        color[i] = premultiply_channel(rgba[i + 2], a);
        color[i + 1] = premultiply_channel(rgba[i + 1], a);
        color[i + 2] = premultiply_channel(rgba[i], a);
        color[i + 3] = a;
        proof {
            assert forall|q: int, k: int| 0 <= q < n && 0 <= k < 4 implies #[trigger] color@[q * 4
                + k] == (if q < p + 1 {
                bgra_byte(rgba@, q, k)
            } else {
                0u8
            }) by {
                if q != p {
                    assert(color@[q * 4 + k] == before[q * 4 + k]);
                }
            }
        }
        p = p + 1;
    }
    let row: usize = ((w as usize + 31) / 32) * 4;
    assert(0 <= row * h <= 8196 * 65535) by (nonlinear_arith)
        requires
            0 <= row <= 8196,
            0 <= h <= 65535,
    ;
    let mask: Vec<u8> = vec![0u8; row * h as usize];
    assert(mask@ =~= Seq::new((mask_row(w as int) * h) as nat, |i: int| 0u8));
    CursorImage { w, h, hot_x, hot_y, color, mask }
}

/// A premultiplied channel never exceeds the opacity, and full opacity keeps
/// it as it is.
pub proof fn law_premultiplied_is_bounded(channel: u8, alpha: u8)
    ensures
        premultiplied(channel, alpha) <= alpha,
        premultiplied(channel, 255) == channel,
        premultiplied(channel, 0) == 0,
{
    assert(0 <= channel * alpha <= 255 * alpha) by (nonlinear_arith)
        requires
            0 <= channel <= 255,
            0 <= alpha,
    ;
}

// ---------------------------------------------------------------------------
// Input forwarding
// ---------------------------------------------------------------------------

/// Whether pointer input is replayed, and which window is the overlay itself.
#[derive(Clone, Copy, Debug, PartialEq, Eq, Structural)]
pub struct Forwarding {
    /// Is input replayed at all?
    pub on: bool,
    /// The overlay window, which never receives a replay.
    pub our_hwnd: usize,
}

/// Enable or disable forwarding of pointer input to the window below the
/// overlay `our_hwnd`.
pub fn set_forwarding(state: &mut Forwarding, enabled: bool, our_hwnd: usize)
    ensures
        *final(state) == (Forwarding { on: enabled, our_hwnd }),
{
    state.on = enabled;
    state.our_hwnd = our_hwnd;
}

/// A window of the Z-order.
#[derive(Clone, Copy, Debug)]
pub struct StackedWindow {
    /// Window handle.
    pub hwnd: usize,
    /// Is it visible?
    pub visible: bool,
    /// Is it minimized?
    pub iconic: bool,
    /// Left, top, right and bottom in screen pixels, if they are known.
    pub rect: Option<(i32, i32, i32, i32)>,
}

impl StackedWindow {
    /// Is this a visible, non-minimized window other than `exclude` whose
    /// rectangle contains the point?
    pub open spec fn is_hit(self, x: i32, y: i32, exclude: usize) -> bool {
        &&& self.hwnd != exclude
        &&& self.visible
        &&& !self.iconic
        &&& self.rect matches Some((l, t, r, b)) && l <= x < r && t <= y < b
    }
}

/// Is `i` the first window of the stack that the point hits?
pub open spec fn is_topmost_hit(
    stack: Seq<StackedWindow>,
    x: i32,
    y: i32,
    exclude: usize,
    i: int,
) -> bool {
    &&& 0 <= i < stack.len()
    &&& stack[i].is_hit(x, y, exclude)
    &&& forall|j: int| 0 <= j < i ==> !(#[trigger] stack[j]).is_hit(x, y, exclude)
}

/// Topmost visible window (excluding `exclude`) whose rectangle contains
/// `(x, y)`, walking the Z-order downward from the top. From there [`dig`] leads
/// to the receiver of a replay.
pub fn window_below_at(stack: &Vec<StackedWindow>, x: i32, y: i32, exclude: usize) -> (r: Option<
    usize,
>)
    ensures
        r is Some <==> exists|i: int| is_topmost_hit(stack@, x, y, exclude, i),
        forall|i: int| is_topmost_hit(stack@, x, y, exclude, i) ==> r == Some(stack@[i].hwnd),
{
    let mut i: usize = 0;
    while i < stack.len()
        invariant
            i <= stack@.len(),
            forall|j: int| 0 <= j < i ==> !(#[trigger] stack@[j]).is_hit(x, y, exclude),
        decreases stack@.len() - i,
    {
        let w = stack[i];
        if w.hwnd != exclude && w.visible && !w.iconic {
            if let Some((left, top, right, bottom)) = w.rect {
                if x >= left && x < right && y >= top && y < bottom {
                    assert(is_topmost_hit(stack@, x, y, exclude, i as int));
                    return Some(w.hwnd);
                }
            }
        }
        i = i + 1;
    }
    None
}

/// How the search for the receiver of a replay goes on.
#[derive(Clone, Copy, Debug, PartialEq, Eq, Structural)]
pub enum Dig {
    /// Look at the children of this window.
    Deeper(usize),
    /// This window is the receiver.
    Done(usize),
}

/// The next step for a window and the child that it has under the point.
pub open spec fn spec_dig(current: usize, child: usize) -> Dig {
    if child != 0 && child != current {
        Dig::Deeper(child)
    } else {
        Dig::Done(current)
    }
}

/// Dig on to the deepest child under the point, so that replays reach canvases
/// and panes. `child` is the child of `current` under the point; a window that
/// has none there answers with zero or with itself.
pub fn dig(current: usize, child: usize) -> (r: Dig)
    ensures
        r == spec_dig(current, child),
{
    if child != 0 && child != current {
        Dig::Deeper(child)
    } else {
        Dig::Done(current)
    }
}

/// Digging goes from each window to its child under the point and ends at a
/// window that has none: the deepest one on the path, or the first window where
/// it has no child itself.
pub proof fn law_digging_ends_at_the_deepest(
    child: spec_fn(usize) -> usize,
    path: Seq<usize>,
    end: usize,
)
    requires
        path.len() > 0,
        forall|i: int|
            0 <= i < path.len() - 1 ==> spec_dig(#[trigger] path[i], child(path[i])) == Dig::Deeper(
                path[i + 1],
            ),
        spec_dig(path.last(), child(path.last())) == Dig::Done(end),
    ensures
        end == path.last(),
        child(end) == 0 || child(end) == end,
        forall|i: int|
            0 <= i < path.len() - 1 ==> child(#[trigger] path[i]) == path[i + 1] && path[i + 1] != 0
                && path[i + 1] != path[i],
        child(path[0]) == 0 || child(path[0]) == path[0] ==> end == path[0],
{
    if path.len() > 1 {
        assert(spec_dig(path[0], child(path[0])) == Dig::Deeper(path[1]));
    }
}

/// A message to be posted to the window below.
#[derive(Clone, Copy, Debug, PartialEq, Eq, Structural)]
pub struct Post {
    /// The window that receives the message.
    pub hwnd: usize,
    /// Is the window brought to the foreground first?
    pub activate: bool,
    /// Window message number.
    pub msg: u32,
    /// First message parameter.
    pub wparam: usize,
    /// Second message parameter: the position.
    pub lparam: u32,
}

/// Do wheel messages of this number carry screen coordinates?
pub open spec fn uses_screen_coordinates(msg: u32) -> bool {
    msg == WM_MOUSEWHEEL || msg == WM_MOUSEHWHEEL
}

/// Does a button go down with this message?
pub open spec fn is_press(msg: u32) -> bool {
    ||| msg == WM_LBUTTONDOWN
    ||| msg == WM_RBUTTONDOWN
    ||| msg == WM_MBUTTONDOWN
    ||| msg == WM_XBUTTONDOWN
}

/// The low 16 bits of a coordinate.
pub open spec fn low_word(n: i32) -> u16 {
    (n as int % 0x1_0000) as u16
}

/// A position packed into 32 bits: X in the low word, Y in the high word.
pub open spec fn packed_point(x: i32, y: i32) -> u32 {
    (low_word(y) * 0x1_0000 + low_word(x)) as u32
}

/// The message that is posted to replay a pointer message to `target`.
pub open spec fn replayed(
    state: Forwarding,
    target: Option<usize>,
    screen: (i32, i32),
    client: (i32, i32),
    msg: u32,
    wparam: usize,
) -> Option<Post> {
    match target {
        Some(hwnd) if state.on => Some(
            Post {
                hwnd,
                activate: is_press(msg),
                msg,
                wparam,
                lparam: if uses_screen_coordinates(msg) {
                    packed_point(screen.0, screen.1)
                } else {
                    packed_point(client.0, client.1)
                },
            },
        ),
        _ => None,
    }
}

fn to_low_word(n: i32) -> (r: u32)
    ensures
        r == low_word(n),
{
    ((n as i64 + 0x1_0000_0000) as u64 % 0x1_0000) as u32
}

/// Replay one pointer message to the window `target` below the overlay.
///
/// `screen` is the position in screen coordinates, `client` the same in client
/// coordinates of the target. Wheel messages carry screen coordinates, all
/// others client coordinates. A press activates the target so that clicks
/// behave naturally.
pub fn forward_mouse(
    state: &Forwarding,
    target: Option<usize>,
    screen: (i32, i32),
    client: (i32, i32),
    msg: u32,
    wparam: usize,
) -> (r: Option<Post>)
    ensures
        r == replayed(*state, target, screen, client, msg, wparam),
{
    if !state.on {
        return None;
    }
    match target {
        None => None,
        Some(hwnd) => {
            let (lx, ly) = if msg == WM_MOUSEWHEEL || msg == WM_MOUSEHWHEEL {
                screen
            } else {
                client
            };
            let lparam: u32 = to_low_word(ly) * 0x1_0000 + to_low_word(lx);
            let activate = msg == WM_LBUTTONDOWN || msg == WM_RBUTTONDOWN || msg == WM_MBUTTONDOWN
                || msg == WM_XBUTTONDOWN;
            Some(Post { hwnd, activate, msg, wparam, lparam })
        },
    }
}

/// The receiver of a replayed message reads the position back as it was sent,
/// for every position that a 16-bit signed number can hold.
pub proof fn law_packed_point_round_trip(x: i32, y: i32)
    requires
        -0x8000 <= x < 0x8000,
        -0x8000 <= y < 0x8000,
    ensures
        hooks::signed_word((packed_point(x, y) as int % 0x1_0000) as u16) == x,
        hooks::signed_word(hooks::high_word(packed_point(x, y))) == y,
{
}

/// While forwarding is off nothing is replayed, and while it is on every
/// message that has a target is, unchanged but for its position.
pub proof fn law_forwarding_switch(
    state: Forwarding,
    target: Option<usize>,
    screen: (i32, i32),
    client: (i32, i32),
    msg: u32,
    wparam: usize,
)
    ensures
        !state.on ==> replayed(state, target, screen, client, msg, wparam) is None,
        state.on ==> (replayed(state, target, screen, client, msg, wparam) is Some <==> target
            is Some),
        replayed(state, target, screen, client, msg, wparam) matches Some(post) ==> post.msg == msg
            && post.wparam == wparam && target == Some(post.hwnd),
{
}

/// The overlay itself is never hit, and at most one window is.
pub proof fn law_overlay_is_never_hit(stack: Seq<StackedWindow>, x: i32, y: i32, our: usize, i: int)
    requires
        is_topmost_hit(stack, x, y, our, i),
    ensures
        stack[i].hwnd != our,
        forall|j: int| is_topmost_hit(stack, x, y, our, j) ==> j == i,
{
    assert forall|j: int| is_topmost_hit(stack, x, y, our, j) implies j == i by {
        if j < i {
            assert(!stack[j].is_hit(x, y, our));
        } else if i < j {
            assert(!stack[i].is_hit(x, y, our));
        }
    }
}

// ---------------------------------------------------------------------------
// More laws
// ---------------------------------------------------------------------------

/// The search goes through the windows in order: a window that is visible, not
/// minimized and has the text in its title ends it, any other is passed over,
/// and an empty text finds nothing.
pub proof fn law_search_goes_in_order(
    first: CandidateView,
    rest: Seq<CandidateView>,
    sub: Seq<char>,
    at: int,
)
    requires
        sub.len() > 0,
    ensures
        ({
            let all = seq![first] + rest;
            &&& first_match(Seq::empty(), sub) is None
            &&& first_match(all, Seq::empty()) is None
            &&& !first.visible || first.iconic ==> first_match(all, sub) == first_match(rest, sub)
            &&& (forall|i: int|
                0 <= i && i + sub.len() <= first.title.len() ==> #[trigger] first.title.subrange(
                    i,
                    i + sub.len(),
                ) != sub) ==> first_match(all, sub) == first_match(rest, sub)
            &&& first.visible && !first.iconic && 0 <= at && at + sub.len() <= first.title.len()
                && first.title.subrange(at, at + sub.len()) == sub && first.hwnd != 0
                ==> first_match(all, sub) == Some(first.hwnd)
        }),
{
    let all = seq![first] + rest;
    assert(all.drop_first() =~= rest);
    assert(all[0] == first);
}

/// What is searched of a window: its handle and state as they are, and its
/// title decoded and in lower case.
pub proof fn law_candidate_of_a_window(windows: Seq<TopWindow>, candidates: Seq<Candidate>, i: int)
    requires
        0 <= i < windows.len(),
        i < candidates.len(),
    ensures
        ({
            let (w, v) = (windows[i], window_views(windows)[i]);
            let (c, u) = (candidates[i], candidate_views(candidates)[i]);
            &&& window_views(windows).len() == windows.len()
            &&& v.hwnd == w.hwnd && v.visible == w.visible && v.iconic == w.iconic
            &&& v.title == lowercased(utf16_text(w.title@))
            &&& candidate_views(candidates).len() == candidates.len()
            &&& u.hwnd == c.hwnd && u.visible == c.visible && u.iconic == c.iconic
            &&& u.title == c.title@
        }),
{
}

/// Units that are no surrogates are characters by themselves, a pair is one
/// character beyond them, and an unpaired surrogate is unreadable.
pub proof fn law_utf16_units(u: u16, v: u16, rest: Seq<u16>)
    ensures
        utf16_text(Seq::empty()) == Seq::<char>::empty(),
        u < 0xD800 || u >= 0xE000 ==> utf16_text(seq![u] + rest) == seq![u as char] + utf16_text(
            rest,
        ),
        0xD800 <= u < 0xDC00 && 0xDC00 <= v < 0xE000 ==> utf16_text(seq![u, v] + rest) == seq![
            (0x1_0000 + (u - 0xD800) * 0x400 + (v - 0xDC00)) as char,
        ] + utf16_text(rest),
        0xDC00 <= u < 0xE000 ==> utf16_text(seq![u] + rest) == seq!['\u{FFFD}'] + utf16_text(rest),
        0xD800 <= u < 0xDC00 && (rest.len() == 0 || rest[0] < 0xDC00 || rest[0] >= 0xE000)
            ==> utf16_text(seq![u] + rest) == seq!['\u{FFFD}'] + utf16_text(rest),
{
    assert((seq![u] + rest).skip(1) =~= rest);
    assert((seq![u, v] + rest).skip(2) =~= rest);
    assert((seq![u, v] + rest)[0] == u && (seq![u, v] + rest)[1] == v);
    if rest.len() > 0 {
        assert((seq![u] + rest)[1] == rest[0]);
    }
}

/// A premultiplied channel is the product with the opacity as a fraction of 255,
/// cut off to a whole number.
pub proof fn law_premultiplied_is_the_fraction(channel: u8, alpha: u8)
    ensures
        premultiplied(channel, alpha) * 255 <= channel * alpha < premultiplied(channel, alpha) * 255
            + 255,
{
    assert(0 <= channel * alpha <= 255 * 255) by (nonlinear_arith)
        requires
            0 <= channel <= 255,
            0 <= alpha <= 255,
    ;
}

/// The bytes of a cursor pixel: blue, green and red of the image, multiplied by
/// the opacity, then the opacity itself; pixels that the image lacks are empty.
pub proof fn law_cursor_pixel_bytes(rgba: Seq<u8>, p: int)
    requires
        0 <= p,
    ensures
        p * 4 + 4 <= rgba.len() ==> {
            let (r, g, b, a) = (rgba[p * 4], rgba[p * 4 + 1], rgba[p * 4 + 2], rgba[p * 4 + 3]);
            &&& bgra_byte(rgba, p, 0) == premultiplied(b, a)
            &&& bgra_byte(rgba, p, 1) == premultiplied(g, a)
            &&& bgra_byte(rgba, p, 2) == premultiplied(r, a)
            &&& bgra_byte(rgba, p, 3) == a
        },
        p * 4 + 4 > rgba.len() ==> forall|k: int| 0 <= k < 4 ==> #[trigger] bgra_byte(rgba, p, k)
            == 0,
{
}

/// A row of the mask has a bit for every pixel and is padded to the next 32
/// bits.
pub proof fn law_mask_rows_are_padded(w: int)
    requires
        0 <= w,
    ensures
        mask_row(w) % 4 == 0,
        w <= mask_row(w) * 8 < w + 32,
{
}

/// A point hits a window if it is visible, not minimized, not the excluded one,
/// and the point is in its rectangle, without the right and the bottom edge.
pub proof fn law_what_a_point_hits(w: StackedWindow, x: i32, y: i32, exclude: usize)
    ensures
        w.is_hit(x, y, exclude) ==> w.hwnd != exclude && w.visible && !w.iconic && w.rect is Some,
        w.rect matches Some((l, t, r, b)) ==> (w.is_hit(x, y, exclude) <==> w.hwnd != exclude
            && w.visible && !w.iconic && l <= x && x < r && t <= y && y < b),
{
}

/// The topmost hit is a hit with none above it, and wherever there is a hit
/// there is a topmost one.
pub proof fn law_topmost_hit(
    stack: Seq<StackedWindow>,
    x: i32,
    y: i32,
    exclude: usize,
    i: int,
    j: int,
)
    requires
        0 <= i < stack.len(),
        stack[i].is_hit(x, y, exclude),
    ensures
        is_topmost_hit(stack, x, y, exclude, j) ==> 0 <= j <= i && stack[j].is_hit(x, y, exclude),
        exists|k: int| is_topmost_hit(stack, x, y, exclude, k),
    decreases i,
{
    if is_topmost_hit(stack, x, y, exclude, j) && i < j {
        assert(!stack[i].is_hit(x, y, exclude));
    }
    if exists|k: int| 0 <= k < i && (#[trigger] stack[k]).is_hit(x, y, exclude) {
        let k = choose|k: int| 0 <= k < i && (#[trigger] stack[k]).is_hit(x, y, exclude);
        law_topmost_hit(stack, x, y, exclude, k, j);
    } else {
        assert(is_topmost_hit(stack, x, y, exclude, i));
    }
}

/// The position that a replayed message carries: wheel messages tell the screen
/// position, all others the position in the target, and the receiver reads it
/// back from the two words of the parameter.
pub proof fn law_replayed_position(
    state: Forwarding,
    target: Option<usize>,
    screen: (i32, i32),
    client: (i32, i32),
    msg: u32,
    wparam: usize,
)
    requires
        -0x8000 <= screen.0 < 0x8000 && -0x8000 <= screen.1 < 0x8000,
        -0x8000 <= client.0 < 0x8000 && -0x8000 <= client.1 < 0x8000,
    ensures
        replayed(state, target, screen, client, msg, wparam) matches Some(post) ==> {
            let (lo, hi) = (post.lparam as int % 0x1_0000, post.lparam as int / 0x1_0000);
            let x = if lo < 0x8000 {
                lo
            } else {
                lo - 0x1_0000
            };
            let y = if hi < 0x8000 {
                hi
            } else {
                hi - 0x1_0000
            };
            &&& msg == WM_MOUSEWHEEL || msg == WM_MOUSEHWHEEL ==> x == screen.0 && y == screen.1
            &&& msg != WM_MOUSEWHEEL && msg != WM_MOUSEHWHEEL ==> x == client.0 && y == client.1
        },
{
}

/// For positions of any size, the parameter carries the low words: X below, Y
/// above.
pub proof fn law_replayed_low_words(
    state: Forwarding,
    target: Option<usize>,
    screen: (i32, i32),
    client: (i32, i32),
    msg: u32,
    wparam: usize,
)
    ensures
        replayed(state, target, screen, client, msg, wparam) matches Some(post) ==> {
            let wheel = msg == WM_MOUSEWHEEL || msg == WM_MOUSEHWHEEL;
            let (x, y) = if wheel {
                screen
            } else {
                client
            };
            &&& post.lparam as int % 0x1_0000 == x as int % 0x1_0000
            &&& post.lparam as int / 0x1_0000 == y as int % 0x1_0000
        },
{
}

/// A replayed press of any button activates its target, and no other message
/// does.
pub proof fn law_only_presses_activate(
    state: Forwarding,
    target: Option<usize>,
    screen: (i32, i32),
    client: (i32, i32),
    msg: u32,
    wparam: usize,
)
    ensures
        replayed(state, target, screen, client, msg, wparam) matches Some(post) ==> (post.activate
            <==> msg == WM_LBUTTONDOWN || msg == WM_RBUTTONDOWN || msg == WM_MBUTTONDOWN || msg
            == WM_XBUTTONDOWN),
{
}

/// Whatever style a window had, pass-through decides its transparent bit; it
/// makes the window layered when it is switched on, and touches no other bit.
/// Switched on and off again, a layered window that was not transparent has its
/// style back.
pub proof fn law_passthrough_switches_one_bit(style: isize, on: isize, off: isize, again: isize)
    requires
        call_ensures(apply_passthrough, (style, true), on),
        call_ensures(apply_passthrough, (style, false), off),
        call_ensures(apply_passthrough, (on, false), again),
    ensures
        on & 0x20 == 0x20 && on & 0x80000 == 0x80000,
        on & !0x80020isize == style & !0x80020isize,
        off & 0x20 == 0,
        off & !0x20isize == style & !0x20isize,
        style & 0x80020 == 0x80000 ==> again == style,
{
    assert({
        let on = style | (0x20isize | 0x80000isize);
        let off = style & !0x20isize;
        &&& on & 0x20isize == 0x20isize && on & 0x80000isize == 0x80000isize
        &&& on & !0x80020isize == style & !0x80020isize
        &&& off & 0x20isize == 0
        &&& off & !0x20isize == style & !0x20isize
        &&& style & 0x80020isize == 0x80000isize ==> on & !0x20isize == style
    }) by (bit_vector);
}

/// A polished window is layered and a tool window, and keeps all other bits.
pub proof fn law_polish_adds_two_bits(style: isize, polished: isize)
    requires
        call_ensures(polish_overlay_window, (style,), polished),
    ensures
        polished & 0x80080 == 0x80080,
        polished & !0x80080isize == style & !0x80080isize,
{
    assert({
        let p = style | (0x80000isize | 0x80isize);
        p & 0x80080isize == 0x80080isize && p & !0x80080isize == style & !0x80080isize
    }) by (bit_vector);
}

/// The custom cursor is shown exactly if there is a handle for it, and with that
/// handle; in all other cases it is the arrow.
pub proof fn law_cursor_needs_a_handle(hcursor: Option<usize>, choice: CursorChoice)
    requires
        call_ensures(set_cursor_handle, (hcursor,), choice),
    ensures
        choice matches CursorChoice::Handle(h) ==> h != 0 && hcursor == Some(h),
        choice == CursorChoice::Arrow <==> hcursor is None || hcursor == Some(0usize),
{
}

} // verus!
