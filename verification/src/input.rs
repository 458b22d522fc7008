//! Input bridge: window-message interception into the overlay input model.
//!
//! The host's message-pump thread calls the replaced window procedure
//! concurrently with rendering. The shim it runs is modeled by
//! [`shim_spec`]: on a successful non-blocking lock acquisition the message
//! is translated into the UI input state ([`wnd_proc_translate`]) and then
//! forwarded to the original procedure; when the lock is held elsewhere the
//! message is forwarded to the original procedure untranslated and
//! unmodified. The shim never blocks on the renderer lock and never drops a
//! message.

use crate::ImguiRenderLoopFlags;
use vstd::prelude::*;

verus! {

/// Window-message identifiers of the platform's message protocol, as the
/// window procedure receives them.
pub const WM_ACTIVATE: u32 = 0x0006;

pub const WM_KEYDOWN: u32 = 0x0100;

pub const WM_KEYUP: u32 = 0x0101;

pub const WM_CHAR: u32 = 0x0102;

pub const WM_SYSKEYDOWN: u32 = 0x0104;

pub const WM_SYSKEYUP: u32 = 0x0105;

pub const WM_LBUTTONDOWN: u32 = 0x0201;

pub const WM_LBUTTONUP: u32 = 0x0202;

pub const WM_LBUTTONDBLCLK: u32 = 0x0203;

pub const WM_RBUTTONDOWN: u32 = 0x0204;

pub const WM_RBUTTONUP: u32 = 0x0205;

pub const WM_RBUTTONDBLCLK: u32 = 0x0206;

pub const WM_MBUTTONDOWN: u32 = 0x0207;

pub const WM_MBUTTONUP: u32 = 0x0208;

pub const WM_MBUTTONDBLCLK: u32 = 0x0209;

pub const WM_MOUSEWHEEL: u32 = 0x020A;

pub const WM_XBUTTONDOWN: u32 = 0x020B;

pub const WM_XBUTTONUP: u32 = 0x020C;

pub const WM_XBUTTONDBLCLK: u32 = 0x020D;

pub const WM_MOUSEHWHEEL: u32 = 0x020E;

/// Low word of an activation message meaning the window was deactivated.
pub const WA_INACTIVE: u32 = 0;

/// High word of an extended-button message naming the first extended button.
pub const XBUTTON1: u32 = 1;

/// The platform's wheel-delta unit: one notch of the mouse wheel. The
/// accumulators below hold raw deltas; dividing by this unit normalizes
/// them.
pub const WHEEL_DELTA: u32 = 120;

/// Number of key slots in the UI key-code mapping table.
pub const KEY_SLOT_COUNT: usize = 22;

/// Sentinel for a UI key slot that maps to no virtual key.
pub const KEY_UNMAPPED: u32 = 0xFFFF_FFFF;

/// Virtual-key codes the mapping table is populated with.
pub const VK_TAB: u32 = 0x09;

pub const VK_BACK: u32 = 0x08;

pub const VK_RETURN: u32 = 0x0D;

pub const VK_ESCAPE: u32 = 0x1B;

pub const VK_SPACE: u32 = 0x20;

pub const VK_PRIOR: u32 = 0x21;

pub const VK_NEXT: u32 = 0x22;

pub const VK_END: u32 = 0x23;

pub const VK_HOME: u32 = 0x24;

pub const VK_LEFT: u32 = 0x25;

pub const VK_UP: u32 = 0x26;

pub const VK_RIGHT: u32 = 0x27;

pub const VK_DOWN: u32 = 0x28;

pub const VK_INSERT: u32 = 0x2D;

pub const VK_DELETE: u32 = 0x2E;

/// The UI input model: what the render path hands the UI context each
/// frame, filled in by the input bridge.
pub struct InputState {
    /// Key table indexed by virtual-key code, 0 through 255.
    pub keys_down: Vec<bool>,
    /// Mouse buttons: left, right, middle and the two extended buttons.
    pub mouse_down: Vec<bool>,
    /// Raw vertical wheel-delta accumulator, in units to be divided by
    /// [`WHEEL_DELTA`].
    pub wheel_ticks: i64,
    /// Raw horizontal wheel-delta accumulator.
    pub wheel_h_ticks: i64,
    /// Display size in pixels, from the host window's rectangle.
    pub display_width: u32,
    pub display_height: u32,
    /// Cursor position in client coordinates.
    pub cursor_x: i32,
    pub cursor_y: i32,
    /// Queued character input.
    pub chars: Vec<u8>,
    /// Navigation-enabled flags handed to the UI context.
    pub nav_active: bool,
    pub nav_visible: bool,
    /// UI key slot to virtual-key code, populated once at initialization.
    pub key_map: Vec<u32>,
}

/// Mathematical view of [`InputState`].
pub struct InputView {
    pub keys_down: Seq<bool>,
    pub mouse_down: Seq<bool>,
    pub wheel_ticks: int,
    pub wheel_h_ticks: int,
    pub display_width: int,
    pub display_height: int,
    pub cursor_x: int,
    pub cursor_y: int,
    pub chars: Seq<u8>,
    pub nav_active: bool,
    pub nav_visible: bool,
    pub key_map: Seq<u32>,
}

impl View for InputState {
    type V = InputView;

    open spec fn view(&self) -> InputView {
        InputView {
            keys_down: self.keys_down@,
            mouse_down: self.mouse_down@,
            wheel_ticks: self.wheel_ticks as int,
            wheel_h_ticks: self.wheel_h_ticks as int,
            display_width: self.display_width as int,
            display_height: self.display_height as int,
            cursor_x: self.cursor_x as int,
            cursor_y: self.cursor_y as int,
            chars: self.chars@,
            nav_active: self.nav_active,
            nav_visible: self.nav_visible,
            key_map: self.key_map@,
        }
    }
}

impl InputState {
    /// Well-formedness: the key table has one entry per virtual-key code,
    /// the button table covers the five buttons, and the mapping table has
    /// one entry per UI key slot.
    pub open spec fn wf(self) -> bool {
        &&& self.keys_down@.len() == 256
        &&& self.mouse_down@.len() == 5
        &&& self.key_map@.len() == KEY_SLOT_COUNT
    }

    /// Fresh input state as the overlay initializes it: nothing pressed, no
    /// wheel movement, navigation enabled, the given display size, and the
    /// key-code mapping table populated with [`default_key_map`].
    pub fn new(display_width: u32, display_height: u32) -> (r: InputState)
        ensures
            r.wf(),
            r@ == fresh_input_view(display_width, display_height),
    {
        let mut keys_down: Vec<bool> = Vec::new();
        while keys_down.len() < 256
            invariant
                keys_down@.len() <= 256,
                forall|k: int| 0 <= k < keys_down@.len() ==> !(#[trigger] keys_down@[k]),
            decreases 256 - keys_down@.len(),
        {
            keys_down.push(false);
        }
        let mut mouse_down: Vec<bool> = Vec::new();
        while mouse_down.len() < 5
            invariant
                mouse_down@.len() <= 5,
                forall|k: int| 0 <= k < mouse_down@.len() ==> !(#[trigger] mouse_down@[k]),
            decreases 5 - mouse_down@.len(),
        {
            mouse_down.push(false);
        }
        let r = InputState {
            keys_down,
            mouse_down,
            wheel_ticks: 0,
            wheel_h_ticks: 0,
            display_width,
            display_height,
            cursor_x: 0,
            cursor_y: 0,
            chars: Vec::new(),
            nav_active: true,
            nav_visible: true,
            key_map: default_key_map(),
        };
        proof {
            assert(r@.keys_down =~= fresh_input_view(display_width, display_height).keys_down);
            assert(r@.mouse_down =~= fresh_input_view(display_width, display_height).mouse_down);
            assert(r@.chars =~= fresh_input_view(display_width, display_height).chars);
        }
        r
    }
}

/// The input state the overlay starts a renderer with: nothing pressed,
/// empty accumulators, navigation enabled, the display size captured at
/// initialization, and the default key-code mapping.
pub open spec fn fresh_input_view(display_width: u32, display_height: u32) -> InputView {
    InputView {
        keys_down: Seq::new(256, |k: int| false),
        mouse_down: Seq::new(5, |k: int| false),
        wheel_ticks: 0,
        wheel_h_ticks: 0,
        display_width: display_width as int,
        display_height: display_height as int,
        cursor_x: 0,
        cursor_y: 0,
        chars: Seq::empty(),
        nav_active: true,
        nav_visible: true,
        key_map: default_key_map_spec(),
    }
}

/// The per-frame events the render path hands to the UI context and
/// consumes: wheel movement and queued characters since the last frame.
pub struct FrameEvents {
    pub wheel_ticks: i64,
    pub wheel_h_ticks: i64,
    pub chars: Vec<u8>,
}

impl InputState {
    /// Hands out the event accumulators gathered since the last frame and
    /// clears them, leaving every other reading (keys, buttons, display
    /// size, cursor) in place.
    pub fn drain_frame_events(&mut self) -> (r: FrameEvents)
        requires
            old(self).wf(),
        ensures
            final(self).wf(),
            r.wheel_ticks == old(self).wheel_ticks,
            r.wheel_h_ticks == old(self).wheel_h_ticks,
            r.chars@ == old(self).chars@,
            final(self)@ == (InputView {
                wheel_ticks: 0,
                wheel_h_ticks: 0,
                chars: Seq::empty(),
                ..old(self)@
            }),
    {
        let wheel_ticks = self.wheel_ticks;
        let wheel_h_ticks = self.wheel_h_ticks;
        let chars = self.chars.split_off(0);
        self.wheel_ticks = 0;
        self.wheel_h_ticks = 0;
        proof {
            assert(self.chars@ =~= Seq::<u8>::empty());
            assert(chars@ =~= old(self).chars@);
        }
        FrameEvents { wheel_ticks, wheel_h_ticks, chars }
    }
}

/// The key-code mapping table in UI key-slot order: tab, the four arrows,
/// page up and down, home, end, insert, delete, backspace, space, enter
/// (left unmapped, as the keypad-enter slot carries the return key), escape,
/// keypad enter, and the clipboard and undo letters.
pub open spec fn default_key_map_spec() -> Seq<u32> {
    seq![
        VK_TAB,
        VK_LEFT,
        VK_RIGHT,
        VK_UP,
        VK_DOWN,
        VK_PRIOR,
        VK_NEXT,
        VK_HOME,
        VK_END,
        VK_INSERT,
        VK_DELETE,
        VK_BACK,
        VK_SPACE,
        KEY_UNMAPPED,
        VK_ESCAPE,
        VK_RETURN,
        0x41,
        0x43,
        0x56,
        0x58,
        0x59,
        0x5A,
    ]
}

/// Builds the key-code mapping table the input bridge populates once at
/// initialization.
pub fn default_key_map() -> (r: Vec<u32>)
    ensures
        r@ == default_key_map_spec(),
        r@.len() == KEY_SLOT_COUNT,
{
    let mut m: Vec<u32> = Vec::new();
    m.push(VK_TAB);
    m.push(VK_LEFT);
    m.push(VK_RIGHT);
    m.push(VK_UP);
    m.push(VK_DOWN);
    m.push(VK_PRIOR);
    m.push(VK_NEXT);
    m.push(VK_HOME);
    m.push(VK_END);
    m.push(VK_INSERT);
    m.push(VK_DELETE);
    m.push(VK_BACK);
    m.push(VK_SPACE);
    m.push(KEY_UNMAPPED);
    m.push(VK_ESCAPE);
    m.push(VK_RETURN);
    m.push(0x41);
    m.push(0x43);
    m.push(0x56);
    m.push(0x58);
    m.push(0x59);
    m.push(0x5A);
    proof {
        assert(m@ =~= default_key_map_spec());
    }
    m
}

/// Low 16 bits of a pointer-sized message argument.
pub open spec fn loword(w: usize) -> int {
    w as int % 0x10000
}

/// Bits 16 through 31 of a pointer-sized message argument.
pub open spec fn hiword(w: usize) -> int {
    (w as int / 0x10000) % 0x10000
}

/// Signed wheel delta carried in the high word of a wheel message's first
/// argument.
pub open spec fn wheel_delta_of(w: usize) -> int {
    if hiword(w) >= 0x8000 {
        hiword(w) - 0x10000
    } else {
        hiword(w)
    }
}

/// Which button table slot an extended-button message names: the first
/// extended button or the second.
pub open spec fn xbutton_slot(w: usize) -> int {
    if hiword(w) == XBUTTON1 {
        3
    } else {
        4
    }
}

/// Addition clamped to the accumulator's range.
pub open spec fn sat_add_i64(a: int, d: int) -> int {
    if a + d > i64::MAX {
        i64::MAX as int
    } else if a + d < i64::MIN {
        i64::MIN as int
    } else {
        a + d
    }
}

/// What one translated message does to the input state: the original
/// window-procedure translation table over raw message arguments.
pub open spec fn translate_state(v: InputView, umsg: u32, wparam: usize) -> InputView {
    if umsg == WM_KEYDOWN || umsg == WM_SYSKEYDOWN {
        if wparam < 256 {
            InputView { keys_down: v.keys_down.update(wparam as int, true), ..v }
        } else {
            v
        }
    } else if umsg == WM_KEYUP || umsg == WM_SYSKEYUP {
        if wparam < 256 {
            InputView { keys_down: v.keys_down.update(wparam as int, false), ..v }
        } else {
            v
        }
    } else if umsg == WM_LBUTTONDOWN || umsg == WM_LBUTTONDBLCLK {
        InputView { mouse_down: v.mouse_down.update(0, true), ..v }
    } else if umsg == WM_RBUTTONDOWN || umsg == WM_RBUTTONDBLCLK {
        InputView { mouse_down: v.mouse_down.update(1, true), ..v }
    } else if umsg == WM_MBUTTONDOWN || umsg == WM_MBUTTONDBLCLK {
        InputView { mouse_down: v.mouse_down.update(2, true), ..v }
    } else if umsg == WM_XBUTTONDOWN || umsg == WM_XBUTTONDBLCLK {
        InputView { mouse_down: v.mouse_down.update(xbutton_slot(wparam), true), ..v }
    } else if umsg == WM_LBUTTONUP {
        InputView { mouse_down: v.mouse_down.update(0, false), ..v }
    } else if umsg == WM_RBUTTONUP {
        InputView { mouse_down: v.mouse_down.update(1, false), ..v }
    } else if umsg == WM_MBUTTONUP {
        InputView { mouse_down: v.mouse_down.update(2, false), ..v }
    } else if umsg == WM_XBUTTONUP {
        InputView { mouse_down: v.mouse_down.update(xbutton_slot(wparam), false), ..v }
    } else if umsg == WM_MOUSEWHEEL {
        InputView { wheel_ticks: sat_add_i64(v.wheel_ticks, wheel_delta_of(wparam)), ..v }
    } else if umsg == WM_MOUSEHWHEEL {
        InputView { wheel_h_ticks: sat_add_i64(v.wheel_h_ticks, wheel_delta_of(wparam)), ..v }
    } else if umsg == WM_CHAR {
        InputView { chars: v.chars.push((wparam % 256) as u8), ..v }
    } else {
        v
    }
}

/// What one translated message does to the shared focus flag: an activation
/// message sets it unless its low word reports deactivation; every other
/// message leaves it alone.
pub open spec fn translate_focus(focused: bool, umsg: u32, wparam: usize) -> bool {
    if umsg == WM_ACTIVATE {
        loword(wparam) != WA_INACTIVE
    } else {
        focused
    }
}

/// A raw window message as the shim receives and forwards it.
#[derive(Clone, Copy, PartialEq, Eq, Structural, Debug)]
pub struct MessageArgs {
    pub umsg: u32,
    pub wparam: usize,
    pub lparam: isize,
}

/// The window-procedure shim as a whole: given whether the non-blocking
/// attempt on the renderer lock succeeded, it yields the input state and
/// focus flag after the message and the message forwarded to the original
/// procedure. The forwarded message always equals the received one; the
/// state is translated only under the lock.
pub open spec fn shim_spec(v: InputView, focused: bool, lock_acquired: bool, m: MessageArgs) -> (
    InputView,
    bool,
    MessageArgs,
) {
    if lock_acquired {
        (translate_state(v, m.umsg, m.wparam), translate_focus(focused, m.umsg, m.wparam), m)
    } else {
        (v, focused, m)
    }
}

/// When the renderer lock is held elsewhere, the shim forwards every message
/// unmodified to the original procedure: no input state or focus mutation,
/// no message dropped.
pub proof fn lemma_contended_shim_forwards_unmodified(
    v: InputView,
    focused: bool,
    m: MessageArgs,
)
    ensures
        shim_spec(v, focused, false, m) == (v, focused, m),
{
}

/// The window-procedure shim as one transaction against the shared input
/// state: `lock_acquired` reports the outcome of the non-blocking attempt
/// on the renderer lock, and the returned message is the one the shim
/// forwards to the original procedure — always the message it received.
/// When the lock was held elsewhere, the state is left untouched.
pub fn wnd_proc_shim(
    s: &mut InputState,
    f: &mut ImguiRenderLoopFlags,
    lock_acquired: bool,
    m: MessageArgs,
) -> (fwd: MessageArgs)
    requires
        old(s).wf(),
    ensures
        final(s).wf(),
        (final(s)@, final(f).focused, fwd) == shim_spec(old(s)@, old(f).focused, lock_acquired, m),
{
    if lock_acquired {
        wnd_proc_translate(s, f, m.umsg, m.wparam, m.lparam);
    }
    m
}

/// Translates one window message into the UI input state and the shared
/// focus flag, exactly as [`shim_spec`] says of a message received with the
/// renderer lock acquired. The caller holds the lock; it forwards the
/// unchanged message to the original procedure afterwards.
pub fn wnd_proc_translate(
    s: &mut InputState,
    f: &mut ImguiRenderLoopFlags,
    umsg: u32,
    wparam: usize,
    _lparam: isize,
)
    requires
        old(s).wf(),
    ensures
        final(s).wf(),
        final(s)@ == translate_state(old(s)@, umsg, wparam),
        final(f).focused == translate_focus(old(f).focused, umsg, wparam),
{
    let hi: usize = (wparam / 0x10000) % 0x10000;
    let lo: usize = wparam % 0x10000;
    if umsg == WM_KEYDOWN || umsg == WM_SYSKEYDOWN {
        if wparam < 256 {
            self_update_key(s, wparam, true);
        }
    } else if umsg == WM_KEYUP || umsg == WM_SYSKEYUP {
        if wparam < 256 {
            self_update_key(s, wparam, false);
        }
    } else if umsg == WM_LBUTTONDOWN || umsg == WM_LBUTTONDBLCLK {
        s.mouse_down[0] = true;
    } else if umsg == WM_RBUTTONDOWN || umsg == WM_RBUTTONDBLCLK {
        s.mouse_down[1] = true;
    } else if umsg == WM_MBUTTONDOWN || umsg == WM_MBUTTONDBLCLK {
        s.mouse_down[2] = true;
    } else if umsg == WM_XBUTTONDOWN || umsg == WM_XBUTTONDBLCLK {
        let slot: usize = if hi == XBUTTON1 as usize {
            3
        } else {
            4
        };
        s.mouse_down[slot] = true;
    } else if umsg == WM_LBUTTONUP {
        s.mouse_down[0] = false;
    } else if umsg == WM_RBUTTONUP {
        s.mouse_down[1] = false;
    } else if umsg == WM_MBUTTONUP {
        s.mouse_down[2] = false;
    } else if umsg == WM_XBUTTONUP {
        let slot: usize = if hi == XBUTTON1 as usize {
            3
        } else {
            4
        };
        s.mouse_down[slot] = false;
    } else if umsg == WM_MOUSEWHEEL {
        let d = wheel_delta_raw(hi);
        s.wheel_ticks = clamped_add(s.wheel_ticks, d);
    } else if umsg == WM_MOUSEHWHEEL {
        let d = wheel_delta_raw(hi);
        s.wheel_h_ticks = clamped_add(s.wheel_h_ticks, d);
    } else if umsg == WM_CHAR {
        s.chars.push((wparam % 256) as u8);
    } else if umsg == WM_ACTIVATE {
        f.focused = lo != WA_INACTIVE as usize;
    }
}

/// Sets one entry of the key table.
fn self_update_key(s: &mut InputState, code: usize, down: bool)
    requires
        old(s).wf(),
        code < 256,
    ensures
        final(s).wf(),
        final(s)@ == (InputView { keys_down: old(s)@.keys_down.update(code as int, down), ..old(s)@ }),
{
    s.keys_down[code] = down;
}

/// The signed wheel delta, given the high word of the message argument.
fn wheel_delta_raw(hi: usize) -> (d: i64)
    requires
        hi < 0x10000,
    ensures
        d == (if hi >= 0x8000 {
            hi - 0x10000
        } else {
            hi as int
        }),
{
    if hi >= 0x8000 {
        hi as i64 - 0x10000
    } else {
        hi as i64
    }
}

/// Addition clamped to the accumulator's range, as [`sat_add_i64`] states.
fn clamped_add(a: i64, d: i64) -> (r: i64)
    ensures
        r == sat_add_i64(a as int, d as int),
{
    if d >= 0 {
        if a > i64::MAX - d {
            i64::MAX
        } else {
            a + d
        }
    } else {
        if a < i64::MIN - d {
            i64::MIN
        } else {
            a + d
        }
    }
}

} // verus!
