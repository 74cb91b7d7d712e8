//! The window message log of the input test windows: which messages count
//! as input, the counters they keep, the pointer position they carry, what
//! the test window does with each message, and where its moving marker is
//! drawn.
use vstd::prelude::*;

verus! {

pub const WM_DESTROY: u32 = 0x0002;
pub const WM_SIZE: u32 = 0x0005;
pub const WM_ACTIVATE: u32 = 0x0006;
pub const WM_SETFOCUS: u32 = 0x0007;
pub const WM_KILLFOCUS: u32 = 0x0008;
pub const WM_PAINT: u32 = 0x000F;
pub const WM_CLOSE: u32 = 0x0010;
pub const WM_NCMOUSEMOVE: u32 = 0x00A0;
pub const WM_NCLBUTTONDOWN: u32 = 0x00A1;
pub const WM_NCLBUTTONUP: u32 = 0x00A2;
pub const WM_KEYDOWN: u32 = 0x0100;
pub const WM_KEYUP: u32 = 0x0101;
pub const WM_CHAR: u32 = 0x0102;
pub const WM_SYSKEYDOWN: u32 = 0x0104;
pub const WM_SYSKEYUP: u32 = 0x0105;
pub const WM_SYSCOMMAND: u32 = 0x0112;
pub const WM_TIMER: u32 = 0x0113;
pub const WM_MOUSEMOVE: u32 = 0x0200;
pub const WM_LBUTTONDOWN: u32 = 0x0201;
pub const WM_LBUTTONUP: u32 = 0x0202;
pub const WM_CAPTURECHANGED: u32 = 0x0215;
pub const WM_ENTERSIZEMOVE: u32 = 0x0231;
pub const WM_EXITSIZEMOVE: u32 = 0x0232;

/// The `wParam` of `WM_SIZE` for a minimized window.
pub const SIZE_MINIMIZED: usize = 1;

/// The virtual key of the escape key.
pub const VK_ESCAPE: usize = 0x1B;

/// The name a message is logged under.
pub open spec fn spec_message_name(msg: u32) -> Seq<char> {
    if msg == WM_MOUSEMOVE {
        "WM_MOUSEMOVE"@
    } else if msg == WM_NCMOUSEMOVE {
        "WM_NCMOUSEMOVE"@
    } else if msg == WM_LBUTTONDOWN {
        "WM_LBUTTONDOWN"@
    } else if msg == WM_LBUTTONUP {
        "WM_LBUTTONUP"@
    } else if msg == WM_NCLBUTTONDOWN {
        "WM_NCLBUTTONDOWN"@
    } else if msg == WM_NCLBUTTONUP {
        "WM_NCLBUTTONUP"@
    } else if msg == WM_KEYDOWN {
        "WM_KEYDOWN"@
    } else if msg == WM_KEYUP {
        "WM_KEYUP"@
    } else if msg == WM_SYSKEYDOWN {
        "WM_SYSKEYDOWN"@
    } else if msg == WM_SYSKEYUP {
        "WM_SYSKEYUP"@
    } else if msg == WM_CHAR {
        "WM_CHAR"@
    } else if msg == WM_SETFOCUS {
        "WM_SETFOCUS"@
    } else if msg == WM_KILLFOCUS {
        "WM_KILLFOCUS"@
    } else if msg == WM_ACTIVATE {
        "WM_ACTIVATE"@
    } else if msg == WM_CAPTURECHANGED {
        "WM_CAPTURECHANGED"@
    } else if msg == WM_ENTERSIZEMOVE {
        "WM_ENTERSIZEMOVE"@
    } else if msg == WM_EXITSIZEMOVE {
        "WM_EXITSIZEMOVE"@
    } else if msg == WM_SYSCOMMAND {
        "WM_SYSCOMMAND"@
    } else if msg == WM_SIZE {
        "WM_SIZE"@
    } else {
        "other"@
    }
}

/// The name a message is logged under.
pub fn message_name(msg: u32) -> (r: &'static str)
    ensures
        r@ == spec_message_name(msg),
{
    if msg == WM_MOUSEMOVE {
        "WM_MOUSEMOVE"
    } else if msg == WM_NCMOUSEMOVE {
        "WM_NCMOUSEMOVE"
    } else if msg == WM_LBUTTONDOWN {
        "WM_LBUTTONDOWN"
    } else if msg == WM_LBUTTONUP {
        "WM_LBUTTONUP"
    } else if msg == WM_NCLBUTTONDOWN {
        "WM_NCLBUTTONDOWN"
    } else if msg == WM_NCLBUTTONUP {
        "WM_NCLBUTTONUP"
    } else if msg == WM_KEYDOWN {
        "WM_KEYDOWN"
    } else if msg == WM_KEYUP {
        "WM_KEYUP"
    } else if msg == WM_SYSKEYDOWN {
        "WM_SYSKEYDOWN"
    } else if msg == WM_SYSKEYUP {
        "WM_SYSKEYUP"
    } else if msg == WM_CHAR {
        "WM_CHAR"
    } else if msg == WM_SETFOCUS {
        "WM_SETFOCUS"
    } else if msg == WM_KILLFOCUS {
        "WM_KILLFOCUS"
    } else if msg == WM_ACTIVATE {
        "WM_ACTIVATE"
    } else if msg == WM_CAPTURECHANGED {
        "WM_CAPTURECHANGED"
    } else if msg == WM_ENTERSIZEMOVE {
        "WM_ENTERSIZEMOVE"
    } else if msg == WM_EXITSIZEMOVE {
        "WM_EXITSIZEMOVE"
    } else if msg == WM_SYSCOMMAND {
        "WM_SYSCOMMAND"
    } else if msg == WM_SIZE {
        "WM_SIZE"
    } else {
        "other"
    }
}

/// A pointer move, in the client area or outside it.
pub open spec fn spec_is_move(msg: u32) -> bool {
    msg == WM_MOUSEMOVE || msg == WM_NCMOUSEMOVE
}

/// A left button press or release, in the client area or outside it.
pub open spec fn spec_is_button(msg: u32) -> bool {
    msg == WM_LBUTTONDOWN || msg == WM_LBUTTONUP || msg == WM_NCLBUTTONDOWN || msg == WM_NCLBUTTONUP
}

/// A key press, release or character.
pub open spec fn spec_is_key(msg: u32) -> bool {
    msg == WM_KEYDOWN || msg == WM_KEYUP || msg == WM_SYSKEYDOWN || msg == WM_SYSKEYUP || msg == WM_CHAR
}

/// A focus, capture or system command message, logged in detail.
pub open spec fn spec_is_focus(msg: u32) -> bool {
    msg == WM_CAPTURECHANGED || msg == WM_SETFOCUS || msg == WM_KILLFOCUS || msg == WM_ACTIVATE
        || msg == WM_SYSCOMMAND
}

/// The horizontal pointer position of a pointer message: the low 16 bits
/// of `lParam`, signed.
pub open spec fn spec_pointer_x(lparam: isize) -> i32 {
    (lparam as i16) as i32
}

/// The vertical pointer position of a pointer message: the next 16 bits of
/// `lParam`, signed.
pub open spec fn spec_pointer_y(lparam: isize) -> i32 {
    ((lparam >> 16u32) as i16) as i32
}

/// The pointer position that a pointer message carries.
pub fn pointer_position(lparam: isize) -> (r: (i32, i32))
    ensures
        r == (spec_pointer_x(lparam), spec_pointer_y(lparam)),
{
    let x = (lparam as i16) as i32;
    let y = ((lparam >> 16u32) as i16) as i32;
    (x, y)
}

/// A counter that wraps around, as an atomic `fetch_add` does.
pub open spec fn spec_bump(c: u32) -> u32 {
    if c == u32::MAX {
        0
    } else {
        (c + 1) as u32
    }
}

fn bump(c: u32) -> (r: u32)
    ensures
        r == spec_bump(c),
{
    if c == u32::MAX {
        0
    } else {
        c + 1
    }
}

/// What a message writes to the log.
#[derive(Clone, Copy, Debug, PartialEq, Eq, Structural)]
pub enum LogLine {
    /// The message's name and the pointer position.
    Position { msg: u32, x: i32, y: i32 },
    /// The message's name, window, `wParam` and `lParam`.
    Detail { msg: u32 },
    /// The window entered its move or size loop.
    EnterSizeMove,
    /// The window left its move or size loop.
    ExitSizeMove,
    /// The window was minimized.
    Minimized,
    /// Nothing.
    Silent,
}

/// The counters and last values that the input test window shows.
#[derive(Clone, Copy, Debug, PartialEq, Eq, Structural)]
pub struct InputLog {
    pub last_message: u32,
    pub last_mouse_x: i32,
    pub last_mouse_y: i32,
    pub in_size_move: bool,
    pub input_count: u32,
    pub move_count: u32,
    pub button_count: u32,
    pub key_count: u32,
}

/// The log after `msg`, and the line written.
pub open spec fn spec_log_message(s: InputLog, msg: u32, wparam: usize, lparam: isize) -> (InputLog, LogLine) {
    let s1 = InputLog { last_message: msg, ..s };
    if spec_is_move(msg) {
        let x = spec_pointer_x(lparam);
        let y = spec_pointer_y(lparam);
        (
            InputLog {
                move_count: spec_bump(s.move_count),
                input_count: spec_bump(s.input_count),
                last_mouse_x: x,
                last_mouse_y: y,
                ..s1
            },
            LogLine::Position { msg, x, y },
        )
    } else if spec_is_button(msg) {
        (
            InputLog { button_count: spec_bump(s.button_count), input_count: spec_bump(s.input_count), ..s1 },
            LogLine::Detail { msg },
        )
    } else if spec_is_key(msg) {
        (
            InputLog { key_count: spec_bump(s.key_count), input_count: spec_bump(s.input_count), ..s1 },
            LogLine::Detail { msg },
        )
    } else if msg == WM_ENTERSIZEMOVE {
        (InputLog { in_size_move: true, ..s1 }, LogLine::EnterSizeMove)
    } else if msg == WM_EXITSIZEMOVE {
        (InputLog { in_size_move: false, ..s1 }, LogLine::ExitSizeMove)
    } else if spec_is_focus(msg) {
        (s1, LogLine::Detail { msg })
    } else if msg == WM_SIZE && wparam == SIZE_MINIMIZED {
        (s1, LogLine::Minimized)
    } else {
        (s1, LogLine::Silent)
    }
}

impl InputLog {
    /// The log before any message: no message, the pointer at (-1, -1),
    /// not moving or sizing, nothing counted.
    pub fn new() -> (s: InputLog)
        ensures
            s == (InputLog {
                last_message: 0,
                last_mouse_x: -1i32,
                last_mouse_y: -1i32,
                in_size_move: false,
                input_count: 0,
                move_count: 0,
                button_count: 0,
                key_count: 0,
            }),
    {
        InputLog {
            last_message: 0,
            last_mouse_x: -1,
            last_mouse_y: -1,
            in_size_move: false,
            input_count: 0,
            move_count: 0,
            button_count: 0,
            key_count: 0,
        }
    }

    /// Logs a message: counts pointer moves, button and key messages (each
    /// also as input), keeps the pointer position of a move and whether the
    /// window is in its move or size loop, and remembers the message.
    /// Returns the line written.
    pub fn log_message(&mut self, msg: u32, wparam: usize, lparam: isize) -> (line: LogLine)
        ensures
            (*final(self), line) == spec_log_message(*old(self), msg, wparam, lparam),
    {
        let line;
        if msg == WM_MOUSEMOVE || msg == WM_NCMOUSEMOVE {
            self.move_count = bump(self.move_count);
            self.input_count = bump(self.input_count);
            let (x, y) = pointer_position(lparam);
            self.last_mouse_x = x;
            self.last_mouse_y = y;
            line = LogLine::Position { msg, x, y };
        } else if msg == WM_LBUTTONDOWN || msg == WM_LBUTTONUP || msg == WM_NCLBUTTONDOWN || msg == WM_NCLBUTTONUP {
            self.button_count = bump(self.button_count);
            self.input_count = bump(self.input_count);
            line = LogLine::Detail { msg };
        } else if msg == WM_KEYDOWN || msg == WM_KEYUP || msg == WM_SYSKEYDOWN || msg == WM_SYSKEYUP || msg == WM_CHAR {
            self.key_count = bump(self.key_count);
            self.input_count = bump(self.input_count);
            line = LogLine::Detail { msg };
        } else if msg == WM_ENTERSIZEMOVE {
            self.in_size_move = true;
            line = LogLine::EnterSizeMove;
        } else if msg == WM_EXITSIZEMOVE {
            self.in_size_move = false;
            line = LogLine::ExitSizeMove;
        } else if msg == WM_CAPTURECHANGED || msg == WM_SETFOCUS || msg == WM_KILLFOCUS || msg == WM_ACTIVATE
            || msg == WM_SYSCOMMAND {
            line = LogLine::Detail { msg };
        } else if msg == WM_SIZE && wparam == SIZE_MINIMIZED {
            line = LogLine::Minimized;
        } else {
            line = LogLine::Silent;
        }
        self.last_message = msg;
        line
    }
}

/// The input count is the sum of the move, button and key counts, modulo
/// 2^32.
pub open spec fn spec_counts_agree(s: InputLog) -> bool {
    s.input_count as int == (s.move_count + s.button_count + s.key_count) % 0x1_0000_0000
}

/// Every input message is counted once as input and once in its own group:
/// a log whose input count agrees with the sum of its group counts still
/// agrees after any message.
pub proof fn law_input_counts_agree(s: InputLog, msg: u32, wparam: usize, lparam: isize)
    requires
        spec_counts_agree(s),
    ensures
        spec_counts_agree(spec_log_message(s, msg, wparam, lparam).0),
{
    let t = spec_log_message(s, msg, wparam, lparam).0;
    let m = s.move_count as int;
    let b = s.button_count as int;
    let k = s.key_count as int;
    let i = s.input_count as int;
    assert(spec_bump(s.input_count) as int == (i + 1) % 0x1_0000_0000);
    assert(spec_bump(s.move_count) as int == (m + 1) % 0x1_0000_0000);
    assert(spec_bump(s.button_count) as int == (b + 1) % 0x1_0000_0000);
    assert(spec_bump(s.key_count) as int == (k + 1) % 0x1_0000_0000);
    if spec_is_move(msg) {
        assert(((m + 1) % 0x1_0000_0000 + b + k) % 0x1_0000_0000 == ((m + b + k) % 0x1_0000_0000 + 1) % 0x1_0000_0000) by (nonlinear_arith);
    } else if spec_is_button(msg) {
        assert((m + (b + 1) % 0x1_0000_0000 + k) % 0x1_0000_0000 == ((m + b + k) % 0x1_0000_0000 + 1) % 0x1_0000_0000) by (nonlinear_arith);
    } else if spec_is_key(msg) {
        assert((m + b + (k + 1) % 0x1_0000_0000) % 0x1_0000_0000 == ((m + b + k) % 0x1_0000_0000 + 1) % 0x1_0000_0000) by (nonlinear_arith);
    }
}

/// What the input test window does with a message.
#[derive(Clone, Copy, Debug, PartialEq, Eq, Structural)]
pub enum WindowAction {
    /// Ask for a repaint; answer 0.
    Invalidate,
    /// Paint the window; answer 0.
    Paint,
    /// Post the quit message; answer 0.
    Quit,
    /// Destroy the window; answer 0.
    Destroy,
    /// Leave the message to the default window procedure.
    Default,
}

/// The input test window's procedure (after logging the message): the timer
/// repaints, escape or destruction quits, closing destroys the window.
pub fn wnd_proc_action(msg: u32, wparam: usize) -> (a: WindowAction)
    ensures
        a == (if msg == WM_TIMER {
            WindowAction::Invalidate
        } else if msg == WM_PAINT {
            WindowAction::Paint
        } else if msg == WM_KEYDOWN && wparam == VK_ESCAPE {
            WindowAction::Quit
        } else if msg == WM_CLOSE {
            WindowAction::Destroy
        } else if msg == WM_DESTROY {
            WindowAction::Quit
        } else {
            WindowAction::Default
        }),
{
    if msg == WM_TIMER {
        WindowAction::Invalidate
    } else if msg == WM_PAINT {
        WindowAction::Paint
    } else if msg == WM_KEYDOWN && wparam == VK_ESCAPE {
        WindowAction::Quit
    } else if msg == WM_CLOSE {
        WindowAction::Destroy
    } else if msg == WM_DESTROY {
        WindowAction::Quit
    } else {
        WindowAction::Default
    }
}

/// A rectangle in client coordinates.
#[derive(Clone, Copy, Debug, PartialEq, Eq, Structural)]
pub struct Rect {
    pub left: i32,
    pub top: i32,
    pub right: i32,
    pub bottom: i32,
}

/// Where the moving marker's left edge is at `tick` milliseconds: it moves
/// one pixel every 8 ms, 20 pixels in from the left, wrapping within the
/// client width less 60 (at least one pixel of travel).
pub open spec fn spec_marker_left(client_left: i32, client_right: i32, tick: u32) -> int {
    let width = if client_right - client_left > 1 { client_right - client_left } else { 1 };
    let travel = if width - 60 > 1 { width - 60 } else { 1 };
    20 + (tick / 8) as int % travel
}

/// The moving marker of the input test window: a 40 by 40 square, 80
/// pixels from the top.
pub fn marker_rect(client_left: i32, client_right: i32, tick: u32) -> (r: Rect)
    requires
        i32::MIN <= client_right - client_left <= i32::MAX,
    ensures
        r.left == spec_marker_left(client_left, client_right, tick),
        r.top == 80,
        r.right == r.left + 40,
        r.bottom == 120,
{
    let diff = client_right - client_left;
    let width = if diff > 1 { diff } else { 1 };
    let travel = if width - 60 > 1 { width - 60 } else { 1 };
    let step: i32 = (tick / 8) as i32;
    let left = 20 + step % travel;
    Rect { left, top: 80, right: left + 40, bottom: 120 }
}

/// Where the input test window draws its text: 20 pixels in from the
/// client area's edges, 145 from the top.
pub fn text_rect(client_right: i32, client_bottom: i32) -> (r: Rect)
    requires
        client_right >= i32::MIN + 20,
        client_bottom >= i32::MIN + 20,
    ensures
        r == (Rect { left: 20, top: 145, right: (client_right - 20) as i32, bottom: (client_bottom - 20) as i32 }),
{
    Rect { left: 20, top: 145, right: client_right - 20, bottom: client_bottom - 20 }
}

/// The window under the pointer that was last reported.
#[derive(Clone, Copy, Debug, PartialEq, Eq, Structural)]
pub struct PointerTarget {
    pub last_target: u64,
}

impl PointerTarget {
    /// Nothing reported yet (a null window).
    pub fn new() -> (t: PointerTarget)
        ensures
            t.last_target == 0,
    {
        PointerTarget { last_target: 0 }
    }

    /// The window under the pointer is `target`: it is reported (`true`)
    /// only when it differs from the one last reported, and remembered.
    pub fn observe(&mut self, target: u64) -> (report: bool)
        ensures
            report == (target != old(self).last_target),
            final(self).last_target == target,
    {
        let report = target != self.last_target;
        self.last_target = target;
        report
    }
}

/// What the profile window's owner does with a message: destruction
/// quits, everything else goes to the default window procedure.
pub fn owner_wnd_proc_action(msg: u32) -> (a: WindowAction)
    ensures
        a == (if msg == WM_DESTROY { WindowAction::Quit } else { WindowAction::Default }),
{
    if msg == WM_DESTROY {
        WindowAction::Quit
    } else {
        WindowAction::Default
    }
}

} // verus!
