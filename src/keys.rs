//! Key presses to terminal input: the escape sequences of navigation and
//! function keys, and typed characters for everything else.
use vstd::prelude::*;

use crate::event::{control_byte, output_of, Event, EventView, IsControlHeld, OutputView};

verus! {

// Key values, as the toolkit reports them (X11 keysyms).
pub const TAB: u32 = 0xff09;
pub const ISO_LEFT_TAB: u32 = 0xfe20;
pub const SCROLL_LOCK: u32 = 0xff14;
pub const LEFT: u32 = 0xff51;
pub const UP: u32 = 0xff52;
pub const RIGHT: u32 = 0xff53;
pub const DOWN: u32 = 0xff54;
pub const PAGE_UP: u32 = 0xff55;
pub const PAGE_DOWN: u32 = 0xff56;
pub const INSERT: u32 = 0xff63;
pub const KP_LEFT: u32 = 0xff96;
pub const KP_UP: u32 = 0xff97;
pub const KP_RIGHT: u32 = 0xff98;
pub const KP_DOWN: u32 = 0xff99;
pub const KP_PAGE_UP: u32 = 0xff9a;
pub const KP_PAGE_DOWN: u32 = 0xff9b;
pub const KP_DELETE: u32 = 0xff9f;
pub const F1: u32 = 0xffbe;
pub const F2: u32 = 0xffbf;
pub const F3: u32 = 0xffc0;
pub const F4: u32 = 0xffc1;
pub const F5: u32 = 0xffc2;
pub const F6: u32 = 0xffc3;
pub const F7: u32 = 0xffc4;
pub const F8: u32 = 0xffc5;
pub const F9: u32 = 0xffc6;
pub const F10: u32 = 0xffc7;
pub const F11: u32 = 0xffc8;
pub const F12: u32 = 0xffc9;
pub const SHIFT_L: u32 = 0xffe1;
pub const SHIFT_R: u32 = 0xffe2;
pub const CONTROL_L: u32 = 0xffe3;
pub const CONTROL_R: u32 = 0xffe4;
pub const CAPS_LOCK: u32 = 0xffe5;
pub const SHIFT_LOCK: u32 = 0xffe6;
pub const META_L: u32 = 0xffe7;
pub const META_R: u32 = 0xffe8;
pub const ALT_L: u32 = 0xffe9;
pub const ALT_R: u32 = 0xffea;
pub const SUPER_L: u32 = 0xffeb;
pub const SUPER_R: u32 = 0xffec;
pub const HYPER_L: u32 = 0xffed;
pub const HYPER_R: u32 = 0xffee;
pub const DELETE: u32 = 0xffff;
pub const MODE_LOCK: u32 = 0x1008ff01;

// Modifier bits of a key event's state.
pub const SHIFT_MASK: u32 = 0x1;
pub const CONTROL_MASK: u32 = 0x4;
/// Alt, as the first extra modifier.
pub const MOD1_MASK: u32 = 0x8;
pub const META_MASK: u32 = 0x1000_0000;

pub open spec fn shift_held(mods: u32) -> bool {
    mods & SHIFT_MASK != 0
}

pub open spec fn control_held(mods: u32) -> bool {
    mods & CONTROL_MASK != 0
}

pub open spec fn alt_held(mods: u32) -> bool {
    mods & (MOD1_MASK | META_MASK) != 0
}

/// The CSI modifier parameter: the most specific combination first
/// (Ctrl+Alt), then Shift, Alt or Meta, and Ctrl.
pub open spec fn modifier_param(mods: u32) -> Option<char> {
    if control_held(mods) && alt_held(mods) {
        Some('6')
    } else if shift_held(mods) {
        Some('2')
    } else if alt_held(mods) {
        Some('3')
    } else if control_held(mods) {
        Some('5')
    } else {
        None
    }
}

pub open spec fn is_param(p: Option<char>) -> bool {
    p is None || p == Some('2') || p == Some('3') || p == Some('5') || p == Some('6')
}

/// How the encoder treats a key.
#[derive(Clone, Copy, Debug, PartialEq, Eq, Structural)]
pub enum KeyClass {
    /// An arrow key, with the final byte of its sequence.
    Cursor(char),
    /// F1 to F4, with the final byte of their sequences.
    Function(char),
    /// A key whose sequences end in `~`, with its number.
    Tilde(u8),
    Tab,
    /// A key that only modifies others.
    Modifier,
    /// Anything else: it types a character.
    Plain,
}

pub open spec fn key_class(keyval: u32) -> KeyClass {
    if keyval == TAB || keyval == ISO_LEFT_TAB {
        KeyClass::Tab
    } else if keyval == UP || keyval == KP_UP {
        KeyClass::Cursor('A')
    } else if keyval == DOWN || keyval == KP_DOWN {
        KeyClass::Cursor('B')
    } else if keyval == RIGHT || keyval == KP_RIGHT {
        KeyClass::Cursor('C')
    } else if keyval == LEFT || keyval == KP_LEFT {
        KeyClass::Cursor('D')
    } else if keyval == F1 {
        KeyClass::Function('P')
    } else if keyval == F2 {
        KeyClass::Function('Q')
    } else if keyval == F3 {
        KeyClass::Function('R')
    } else if keyval == F4 {
        KeyClass::Function('S')
    } else if keyval == INSERT {
        KeyClass::Tilde(2)
    } else if keyval == DELETE || keyval == KP_DELETE {
        KeyClass::Tilde(3)
    } else if keyval == PAGE_UP || keyval == KP_PAGE_UP {
        KeyClass::Tilde(5)
    } else if keyval == PAGE_DOWN || keyval == KP_PAGE_DOWN {
        KeyClass::Tilde(6)
    } else if keyval == F5 {
        KeyClass::Tilde(15)
    } else if keyval == F6 {
        KeyClass::Tilde(17)
    } else if keyval == F7 {
        KeyClass::Tilde(18)
    } else if keyval == F8 {
        KeyClass::Tilde(19)
    } else if keyval == F9 {
        KeyClass::Tilde(20)
    } else if keyval == F10 {
        KeyClass::Tilde(21)
    } else if keyval == F11 {
        KeyClass::Tilde(23)
    } else if keyval == F12 {
        KeyClass::Tilde(24)
    } else if is_modifier_key(keyval) {
        KeyClass::Modifier
    } else {
        KeyClass::Plain
    }
}

/// Bare modifier keys, which never reach the child process.
pub open spec fn is_modifier_key(keyval: u32) -> bool {
    keyval == SHIFT_L
        || keyval == SHIFT_R
        || keyval == CONTROL_L
        || keyval == CONTROL_R
        || keyval == ALT_L
        || keyval == ALT_R
        || keyval == META_L
        || keyval == META_R
        || keyval == SUPER_L
        || keyval == SUPER_R
        || keyval == HYPER_L
        || keyval == HYPER_R
        || keyval == CAPS_LOCK
        || keyval == SCROLL_LOCK
        || keyval == SHIFT_LOCK
        || keyval == MODE_LOCK
}

/// The decimal number of a `~` key.
pub open spec fn tilde_digits(n: u8) -> Seq<char> {
    if n == 2 {
        seq!['2']
    } else if n == 3 {
        seq!['3']
    } else if n == 5 {
        seq!['5']
    } else if n == 6 {
        seq!['6']
    } else if n == 15 {
        seq!['1', '5']
    } else if n == 17 {
        seq!['1', '7']
    } else if n == 18 {
        seq!['1', '8']
    } else if n == 19 {
        seq!['1', '9']
    } else if n == 20 {
        seq!['2', '0']
    } else if n == 21 {
        seq!['2', '1']
    } else if n == 23 {
        seq!['2', '3']
    } else if n == 24 {
        seq!['2', '4']
    } else {
        seq![]
    }
}

pub open spec fn is_tilde_number(n: u8) -> bool {
    n == 2 || n == 3 || n == 5 || n == 6 || n == 15 || n == 17 || n == 18 || n == 19 || n == 20 || n == 21 || n == 23 || n == 24
}

pub open spec fn csi(body: Seq<char>) -> Seq<char> {
    seq!['\x1b', '['] + body
}

/// Arrow keys: `CSI final`, or `CSI 1 ; m final` with modifiers.
pub open spec fn cursor_seq(f: char, p: Option<char>) -> Seq<char> {
    match p {
        None => csi(seq![f]),
        Some(m) => csi(seq!['1', ';', m, f]),
    }
}

/// F1 to F4: `ESC O final`, or `CSI 1 ; m final` with modifiers.
pub open spec fn function_seq(f: char, p: Option<char>) -> Seq<char> {
    match p {
        None => seq!['\x1b', 'O', f],
        Some(m) => csi(seq!['1', ';', m, f]),
    }
}

/// Keys numbered `n`: `CSI n ~`, or `CSI n ; m ~` with modifiers.
pub open spec fn tilde_seq(n: u8, p: Option<char>) -> Seq<char> {
    match p {
        None => csi(tilde_digits(n) + seq!['~']),
        Some(m) => csi(tilde_digits(n) + seq![';', m, '~']),
    }
}

/// The escape sequence a key sends, if it sends one.
pub open spec fn escape_sequence(keyval: u32, mods: u32) -> Option<Seq<char>> {
    let p = modifier_param(mods);
    match key_class(keyval) {
        KeyClass::Tab => if shift_held(mods) {
            Some(csi(seq!['Z']))
        } else {
            None
        },
        KeyClass::Cursor(f) => Some(cursor_seq(f, p)),
        KeyClass::Function(f) => Some(function_seq(f, p)),
        KeyClass::Tilde(n) => Some(tilde_seq(n, p)),
        _ => None,
    }
}

/// The character a key types: its Unicode value, or else the low byte of
/// the key value.
pub open spec fn typed_char(keyval: u32, unicode: Option<char>) -> char {
    match unicode {
        Some(c) => c,
        None => ((keyval as u8) as char),
    }
}

/// The event a key press produces when the input method did not take it.
pub open spec fn key_event(keyval: u32, mods: u32, unicode: Option<char>) -> EventView {
    match escape_sequence(keyval, mods) {
        Some(s) => EventView::StrInput(s),
        None => if is_modifier_key(keyval) {
            EventView::Blank
        } else {
            EventView::CharInput(typed_char(keyval, unicode), control_held(mods))
        },
    }
}

fn modifier_digit(mods: u32) -> (r: Option<char>)
    ensures
        r == modifier_param(mods),
        is_param(r),
{
    let ctrl = mods & CONTROL_MASK != 0;
    let alt = mods & (MOD1_MASK | META_MASK) != 0;
    let shift = mods & SHIFT_MASK != 0;
    if ctrl && alt {
        Some('6')
    } else if shift {
        Some('2')
    } else if alt {
        Some('3')
    } else if ctrl {
        Some('5')
    } else {
        None
    }
}

pub fn classify(keyval: u32) -> (r: KeyClass)
    ensures
        r == key_class(keyval),
{
    if keyval == TAB || keyval == ISO_LEFT_TAB {
        KeyClass::Tab
    } else if keyval == UP || keyval == KP_UP {
        KeyClass::Cursor('A')
    } else if keyval == DOWN || keyval == KP_DOWN {
        KeyClass::Cursor('B')
    } else if keyval == RIGHT || keyval == KP_RIGHT {
        KeyClass::Cursor('C')
    } else if keyval == LEFT || keyval == KP_LEFT {
        KeyClass::Cursor('D')
    } else if keyval == F1 {
        KeyClass::Function('P')
    } else if keyval == F2 {
        KeyClass::Function('Q')
    } else if keyval == F3 {
        KeyClass::Function('R')
    } else if keyval == F4 {
        KeyClass::Function('S')
    } else if keyval == INSERT {
        KeyClass::Tilde(2)
    } else if keyval == DELETE || keyval == KP_DELETE {
        KeyClass::Tilde(3)
    } else if keyval == PAGE_UP || keyval == KP_PAGE_UP {
        KeyClass::Tilde(5)
    } else if keyval == PAGE_DOWN || keyval == KP_PAGE_DOWN {
        KeyClass::Tilde(6)
    } else if keyval == F5 {
        KeyClass::Tilde(15)
    } else if keyval == F6 {
        KeyClass::Tilde(17)
    } else if keyval == F7 {
        KeyClass::Tilde(18)
    } else if keyval == F8 {
        KeyClass::Tilde(19)
    } else if keyval == F9 {
        KeyClass::Tilde(20)
    } else if keyval == F10 {
        KeyClass::Tilde(21)
    } else if keyval == F11 {
        KeyClass::Tilde(23)
    } else if keyval == F12 {
        KeyClass::Tilde(24)
    } else if keyval == SHIFT_L || keyval == SHIFT_R || keyval == CONTROL_L || keyval == CONTROL_R || keyval == ALT_L || keyval == ALT_R || keyval == META_L || keyval == META_R || keyval == SUPER_L || keyval == SUPER_R || keyval == HYPER_L || keyval == HYPER_R || keyval == CAPS_LOCK || keyval == SCROLL_LOCK || keyval == SHIFT_LOCK || keyval == MODE_LOCK {
        KeyClass::Modifier
    } else {
        KeyClass::Plain
    }
}

/// The literal of [`cursor_seq`].
fn cursor_sequence(f: char, p: Option<char>) -> (r: &'static str)
    requires
        f == 'A' || f == 'B' || f == 'C' || f == 'D',
        is_param(p),
    ensures
        r@ == cursor_seq(f, p),
{
    match (f, p) {
        ('A', None) => {
            proof {
                reveal_strlit("\x1b[A");
            }
            assert("\x1b[A"@ =~= cursor_seq(f, p));
            "\x1b[A"
        },
        ('A', Some('2')) => {
            proof {
                reveal_strlit("\x1b[1;2A");
            }
            assert("\x1b[1;2A"@ =~= cursor_seq(f, p));
            "\x1b[1;2A"
        },
        ('A', Some('3')) => {
            proof {
                reveal_strlit("\x1b[1;3A");
            }
            assert("\x1b[1;3A"@ =~= cursor_seq(f, p));
            "\x1b[1;3A"
        },
        ('A', Some('5')) => {
            proof {
                reveal_strlit("\x1b[1;5A");
            }
            assert("\x1b[1;5A"@ =~= cursor_seq(f, p));
            "\x1b[1;5A"
        },
        ('A', Some('6')) => {
            proof {
                reveal_strlit("\x1b[1;6A");
            }
            assert("\x1b[1;6A"@ =~= cursor_seq(f, p));
            "\x1b[1;6A"
        },
        ('B', None) => {
            proof {
                reveal_strlit("\x1b[B");
            }
            assert("\x1b[B"@ =~= cursor_seq(f, p));
            "\x1b[B"
        },
        ('B', Some('2')) => {
            proof {
                reveal_strlit("\x1b[1;2B");
            }
            assert("\x1b[1;2B"@ =~= cursor_seq(f, p));
            "\x1b[1;2B"
        },
        ('B', Some('3')) => {
            proof {
                reveal_strlit("\x1b[1;3B");
            }
            assert("\x1b[1;3B"@ =~= cursor_seq(f, p));
            "\x1b[1;3B"
        },
        ('B', Some('5')) => {
            proof {
                reveal_strlit("\x1b[1;5B");
            }
            assert("\x1b[1;5B"@ =~= cursor_seq(f, p));
            "\x1b[1;5B"
        },
        ('B', Some('6')) => {
            proof {
                reveal_strlit("\x1b[1;6B");
            }
            assert("\x1b[1;6B"@ =~= cursor_seq(f, p));
            "\x1b[1;6B"
        },
        ('C', None) => {
            proof {
                reveal_strlit("\x1b[C");
            }
            assert("\x1b[C"@ =~= cursor_seq(f, p));
            "\x1b[C"
        },
        ('C', Some('2')) => {
            proof {
                reveal_strlit("\x1b[1;2C");
            }
            assert("\x1b[1;2C"@ =~= cursor_seq(f, p));
            "\x1b[1;2C"
        },
        ('C', Some('3')) => {
            proof {
                reveal_strlit("\x1b[1;3C");
            }
            assert("\x1b[1;3C"@ =~= cursor_seq(f, p));
            "\x1b[1;3C"
        },
        ('C', Some('5')) => {
            proof {
                reveal_strlit("\x1b[1;5C");
            }
            assert("\x1b[1;5C"@ =~= cursor_seq(f, p));
            "\x1b[1;5C"
        },
        ('C', Some('6')) => {
            proof {
                reveal_strlit("\x1b[1;6C");
            }
            assert("\x1b[1;6C"@ =~= cursor_seq(f, p));
            "\x1b[1;6C"
        },
        ('D', None) => {
            proof {
                reveal_strlit("\x1b[D");
            }
            assert("\x1b[D"@ =~= cursor_seq(f, p));
            "\x1b[D"
        },
        ('D', Some('2')) => {
            proof {
                reveal_strlit("\x1b[1;2D");
            }
            assert("\x1b[1;2D"@ =~= cursor_seq(f, p));
            "\x1b[1;2D"
        },
        ('D', Some('3')) => {
            proof {
                reveal_strlit("\x1b[1;3D");
            }
            assert("\x1b[1;3D"@ =~= cursor_seq(f, p));
            "\x1b[1;3D"
        },
        ('D', Some('5')) => {
            proof {
                reveal_strlit("\x1b[1;5D");
            }
            assert("\x1b[1;5D"@ =~= cursor_seq(f, p));
            "\x1b[1;5D"
        },
        _ => {
            proof {
                reveal_strlit("\x1b[1;6D");
            }
            assert("\x1b[1;6D"@ =~= cursor_seq(f, p));
            "\x1b[1;6D"
        },
    }
}

/// The literal of [`function_seq`].
fn function_sequence(f: char, p: Option<char>) -> (r: &'static str)
    requires
        f == 'P' || f == 'Q' || f == 'R' || f == 'S',
        is_param(p),
    ensures
        r@ == function_seq(f, p),
{
    match (f, p) {
        ('P', None) => {
            proof {
                reveal_strlit("\x1bOP");
            }
            assert("\x1bOP"@ =~= function_seq(f, p));
            "\x1bOP"
        },
        ('P', Some('2')) => {
            proof {
                reveal_strlit("\x1b[1;2P");
            }
            assert("\x1b[1;2P"@ =~= function_seq(f, p));
            "\x1b[1;2P"
        },
        ('P', Some('3')) => {
            proof {
                reveal_strlit("\x1b[1;3P");
            }
            assert("\x1b[1;3P"@ =~= function_seq(f, p));
            "\x1b[1;3P"
        },
        ('P', Some('5')) => {
            proof {
                reveal_strlit("\x1b[1;5P");
            }
            assert("\x1b[1;5P"@ =~= function_seq(f, p));
            "\x1b[1;5P"
        },
        ('P', Some('6')) => {
            proof {
                reveal_strlit("\x1b[1;6P");
            }
            assert("\x1b[1;6P"@ =~= function_seq(f, p));
            "\x1b[1;6P"
        },
        ('Q', None) => {
            proof {
                reveal_strlit("\x1bOQ");
            }
            assert("\x1bOQ"@ =~= function_seq(f, p));
            "\x1bOQ"
        },
        ('Q', Some('2')) => {
            proof {
                reveal_strlit("\x1b[1;2Q");
            }
            assert("\x1b[1;2Q"@ =~= function_seq(f, p));
            "\x1b[1;2Q"
        },
        ('Q', Some('3')) => {
            proof {
                reveal_strlit("\x1b[1;3Q");
            }
            assert("\x1b[1;3Q"@ =~= function_seq(f, p));
            "\x1b[1;3Q"
        },
        ('Q', Some('5')) => {
            proof {
                reveal_strlit("\x1b[1;5Q");
            }
            assert("\x1b[1;5Q"@ =~= function_seq(f, p));
            "\x1b[1;5Q"
        },
        ('Q', Some('6')) => {
            proof {
                reveal_strlit("\x1b[1;6Q");
            }
            assert("\x1b[1;6Q"@ =~= function_seq(f, p));
            "\x1b[1;6Q"
        },
        ('R', None) => {
            proof {
                reveal_strlit("\x1bOR");
            }
            assert("\x1bOR"@ =~= function_seq(f, p));
            "\x1bOR"
        },
        ('R', Some('2')) => {
            proof {
                reveal_strlit("\x1b[1;2R");
            }
            assert("\x1b[1;2R"@ =~= function_seq(f, p));
            "\x1b[1;2R"
        },
        ('R', Some('3')) => {
            proof {
                reveal_strlit("\x1b[1;3R");
            }
            assert("\x1b[1;3R"@ =~= function_seq(f, p));
            "\x1b[1;3R"
        },
        ('R', Some('5')) => {
            proof {
                reveal_strlit("\x1b[1;5R");
            }
            assert("\x1b[1;5R"@ =~= function_seq(f, p));
            "\x1b[1;5R"
        },
        ('R', Some('6')) => {
            proof {
                reveal_strlit("\x1b[1;6R");
            }
            assert("\x1b[1;6R"@ =~= function_seq(f, p));
            "\x1b[1;6R"
        },
        ('S', None) => {
            proof {
                reveal_strlit("\x1bOS");
            }
            assert("\x1bOS"@ =~= function_seq(f, p));
            "\x1bOS"
        },
        ('S', Some('2')) => {
            proof {
                reveal_strlit("\x1b[1;2S");
            }
            assert("\x1b[1;2S"@ =~= function_seq(f, p));
            "\x1b[1;2S"
        },
        ('S', Some('3')) => {
            proof {
                reveal_strlit("\x1b[1;3S");
            }
            assert("\x1b[1;3S"@ =~= function_seq(f, p));
            "\x1b[1;3S"
        },
        ('S', Some('5')) => {
            proof {
                reveal_strlit("\x1b[1;5S");
            }
            assert("\x1b[1;5S"@ =~= function_seq(f, p));
            "\x1b[1;5S"
        },
        _ => {
            proof {
                reveal_strlit("\x1b[1;6S");
            }
            assert("\x1b[1;6S"@ =~= function_seq(f, p));
            "\x1b[1;6S"
        },
    }
}

/// The literal of [`tilde_seq`].
fn tilde_sequence(n: u8, p: Option<char>) -> (r: &'static str)
    requires
        is_tilde_number(n),
        is_param(p),
    ensures
        r@ == tilde_seq(n, p),
{
    match (n, p) {
        (2, None) => {
            proof {
                reveal_strlit("\x1b[2~");
            }
            assert("\x1b[2~"@ =~= tilde_seq(n, p));
            "\x1b[2~"
        },
        (2, Some('2')) => {
            proof {
                reveal_strlit("\x1b[2;2~");
            }
            assert("\x1b[2;2~"@ =~= tilde_seq(n, p));
            "\x1b[2;2~"
        },
        (2, Some('3')) => {
            proof {
                reveal_strlit("\x1b[2;3~");
            }
            assert("\x1b[2;3~"@ =~= tilde_seq(n, p));
            "\x1b[2;3~"
        },
        (2, Some('5')) => {
            proof {
                reveal_strlit("\x1b[2;5~");
            }
            assert("\x1b[2;5~"@ =~= tilde_seq(n, p));
            "\x1b[2;5~"
        },
        (2, Some('6')) => {
            proof {
                reveal_strlit("\x1b[2;6~");
            }
            assert("\x1b[2;6~"@ =~= tilde_seq(n, p));
            "\x1b[2;6~"
        },
        (3, None) => {
            proof {
                reveal_strlit("\x1b[3~");
            }
            assert("\x1b[3~"@ =~= tilde_seq(n, p));
            "\x1b[3~"
        },
        (3, Some('2')) => {
            proof {
                reveal_strlit("\x1b[3;2~");
            }
            assert("\x1b[3;2~"@ =~= tilde_seq(n, p));
            "\x1b[3;2~"
        },
        (3, Some('3')) => {
            proof {
                reveal_strlit("\x1b[3;3~");
            }
            assert("\x1b[3;3~"@ =~= tilde_seq(n, p));
            "\x1b[3;3~"
        },
        (3, Some('5')) => {
            proof {
                reveal_strlit("\x1b[3;5~");
            }
            assert("\x1b[3;5~"@ =~= tilde_seq(n, p));
            "\x1b[3;5~"
        },
        (3, Some('6')) => {
            proof {
                reveal_strlit("\x1b[3;6~");
            }
            assert("\x1b[3;6~"@ =~= tilde_seq(n, p));
            "\x1b[3;6~"
        },
        (5, None) => {
            proof {
                reveal_strlit("\x1b[5~");
            }
            assert("\x1b[5~"@ =~= tilde_seq(n, p));
            "\x1b[5~"
        },
        (5, Some('2')) => {
            proof {
                reveal_strlit("\x1b[5;2~");
            }
            assert("\x1b[5;2~"@ =~= tilde_seq(n, p));
            "\x1b[5;2~"
        },
        (5, Some('3')) => {
            proof {
                reveal_strlit("\x1b[5;3~");
            }
            assert("\x1b[5;3~"@ =~= tilde_seq(n, p));
            "\x1b[5;3~"
        },
        (5, Some('5')) => {
            proof {
                reveal_strlit("\x1b[5;5~");
            }
            assert("\x1b[5;5~"@ =~= tilde_seq(n, p));
            "\x1b[5;5~"
        },
        (5, Some('6')) => {
            proof {
                reveal_strlit("\x1b[5;6~");
            }
            assert("\x1b[5;6~"@ =~= tilde_seq(n, p));
            "\x1b[5;6~"
        },
        (6, None) => {
            proof {
                reveal_strlit("\x1b[6~");
            }
            assert("\x1b[6~"@ =~= tilde_seq(n, p));
            "\x1b[6~"
        },
        (6, Some('2')) => {
            proof {
                reveal_strlit("\x1b[6;2~");
            }
            assert("\x1b[6;2~"@ =~= tilde_seq(n, p));
            "\x1b[6;2~"
        },
        (6, Some('3')) => {
            proof {
                reveal_strlit("\x1b[6;3~");
            }
            assert("\x1b[6;3~"@ =~= tilde_seq(n, p));
            "\x1b[6;3~"
        },
        (6, Some('5')) => {
            proof {
                reveal_strlit("\x1b[6;5~");
            }
            assert("\x1b[6;5~"@ =~= tilde_seq(n, p));
            "\x1b[6;5~"
        },
        (6, Some('6')) => {
            proof {
                reveal_strlit("\x1b[6;6~");
            }
            assert("\x1b[6;6~"@ =~= tilde_seq(n, p));
            "\x1b[6;6~"
        },
        (15, None) => {
            proof {
                reveal_strlit("\x1b[15~");
            }
            assert("\x1b[15~"@ =~= tilde_seq(n, p));
            "\x1b[15~"
        },
        (15, Some('2')) => {
            proof {
                reveal_strlit("\x1b[15;2~");
            }
            assert("\x1b[15;2~"@ =~= tilde_seq(n, p));
            "\x1b[15;2~"
        },
        (15, Some('3')) => {
            proof {
                reveal_strlit("\x1b[15;3~");
            }
            assert("\x1b[15;3~"@ =~= tilde_seq(n, p));
            "\x1b[15;3~"
        },
        (15, Some('5')) => {
            proof {
                reveal_strlit("\x1b[15;5~");
            }
            assert("\x1b[15;5~"@ =~= tilde_seq(n, p));
            "\x1b[15;5~"
        },
        (15, Some('6')) => {
            proof {
                reveal_strlit("\x1b[15;6~");
            }
            assert("\x1b[15;6~"@ =~= tilde_seq(n, p));
            "\x1b[15;6~"
        },
        (17, None) => {
            proof {
                reveal_strlit("\x1b[17~");
            }
            assert("\x1b[17~"@ =~= tilde_seq(n, p));
            "\x1b[17~"
        },
        (17, Some('2')) => {
            proof {
                reveal_strlit("\x1b[17;2~");
            }
            assert("\x1b[17;2~"@ =~= tilde_seq(n, p));
            "\x1b[17;2~"
        },
        (17, Some('3')) => {
            proof {
                reveal_strlit("\x1b[17;3~");
            }
            assert("\x1b[17;3~"@ =~= tilde_seq(n, p));
            "\x1b[17;3~"
        },
        (17, Some('5')) => {
            proof {
                reveal_strlit("\x1b[17;5~");
            }
            assert("\x1b[17;5~"@ =~= tilde_seq(n, p));
            "\x1b[17;5~"
        },
        (17, Some('6')) => {
            proof {
                reveal_strlit("\x1b[17;6~");
            }
            assert("\x1b[17;6~"@ =~= tilde_seq(n, p));
            "\x1b[17;6~"
        },
        (18, None) => {
            proof {
                reveal_strlit("\x1b[18~");
            }
            assert("\x1b[18~"@ =~= tilde_seq(n, p));
            "\x1b[18~"
        },
        (18, Some('2')) => {
            proof {
                reveal_strlit("\x1b[18;2~");
            }
            assert("\x1b[18;2~"@ =~= tilde_seq(n, p));
            "\x1b[18;2~"
        },
        (18, Some('3')) => {
            proof {
                reveal_strlit("\x1b[18;3~");
            }
            assert("\x1b[18;3~"@ =~= tilde_seq(n, p));
            "\x1b[18;3~"
        },
        (18, Some('5')) => {
            proof {
                reveal_strlit("\x1b[18;5~");
            }
            assert("\x1b[18;5~"@ =~= tilde_seq(n, p));
            "\x1b[18;5~"
        },
        (18, Some('6')) => {
            proof {
                reveal_strlit("\x1b[18;6~");
            }
            assert("\x1b[18;6~"@ =~= tilde_seq(n, p));
            "\x1b[18;6~"
        },
        (19, None) => {
            proof {
                reveal_strlit("\x1b[19~");
            }
            assert("\x1b[19~"@ =~= tilde_seq(n, p));
            "\x1b[19~"
        },
        (19, Some('2')) => {
            proof {
                reveal_strlit("\x1b[19;2~");
            }
            assert("\x1b[19;2~"@ =~= tilde_seq(n, p));
            "\x1b[19;2~"
        },
        (19, Some('3')) => {
            proof {
                reveal_strlit("\x1b[19;3~");
            }
            assert("\x1b[19;3~"@ =~= tilde_seq(n, p));
            "\x1b[19;3~"
        },
        (19, Some('5')) => {
            proof {
                reveal_strlit("\x1b[19;5~");
            }
            assert("\x1b[19;5~"@ =~= tilde_seq(n, p));
            "\x1b[19;5~"
        },
        (19, Some('6')) => {
            proof {
                reveal_strlit("\x1b[19;6~");
            }
            assert("\x1b[19;6~"@ =~= tilde_seq(n, p));
            "\x1b[19;6~"
        },
        (20, None) => {
            proof {
                reveal_strlit("\x1b[20~");
            }
            assert("\x1b[20~"@ =~= tilde_seq(n, p));
            "\x1b[20~"
        },
        (20, Some('2')) => {
            proof {
                reveal_strlit("\x1b[20;2~");
            }
            assert("\x1b[20;2~"@ =~= tilde_seq(n, p));
            "\x1b[20;2~"
        },
        (20, Some('3')) => {
            proof {
                reveal_strlit("\x1b[20;3~");
            }
            assert("\x1b[20;3~"@ =~= tilde_seq(n, p));
            "\x1b[20;3~"
        },
        (20, Some('5')) => {
            proof {
                reveal_strlit("\x1b[20;5~");
            }
            assert("\x1b[20;5~"@ =~= tilde_seq(n, p));
            "\x1b[20;5~"
        },
        (20, Some('6')) => {
            proof {
                reveal_strlit("\x1b[20;6~");
            }
            assert("\x1b[20;6~"@ =~= tilde_seq(n, p));
            "\x1b[20;6~"
        },
        (21, None) => {
            proof {
                reveal_strlit("\x1b[21~");
            }
            assert("\x1b[21~"@ =~= tilde_seq(n, p));
            "\x1b[21~"
        },
        (21, Some('2')) => {
            proof {
                reveal_strlit("\x1b[21;2~");
            }
            assert("\x1b[21;2~"@ =~= tilde_seq(n, p));
            "\x1b[21;2~"
        },
        (21, Some('3')) => {
            proof {
                reveal_strlit("\x1b[21;3~");
            }
            assert("\x1b[21;3~"@ =~= tilde_seq(n, p));
            "\x1b[21;3~"
        },
        (21, Some('5')) => {
            proof {
                reveal_strlit("\x1b[21;5~");
            }
            assert("\x1b[21;5~"@ =~= tilde_seq(n, p));
            "\x1b[21;5~"
        },
        (21, Some('6')) => {
            proof {
                reveal_strlit("\x1b[21;6~");
            }
            assert("\x1b[21;6~"@ =~= tilde_seq(n, p));
            "\x1b[21;6~"
        },
        (23, None) => {
            proof {
                reveal_strlit("\x1b[23~");
            }
            assert("\x1b[23~"@ =~= tilde_seq(n, p));
            "\x1b[23~"
        },
        (23, Some('2')) => {
            proof {
                reveal_strlit("\x1b[23;2~");
            }
            assert("\x1b[23;2~"@ =~= tilde_seq(n, p));
            "\x1b[23;2~"
        },
        (23, Some('3')) => {
            proof {
                reveal_strlit("\x1b[23;3~");
            }
            assert("\x1b[23;3~"@ =~= tilde_seq(n, p));
            "\x1b[23;3~"
        },
        (23, Some('5')) => {
            proof {
                reveal_strlit("\x1b[23;5~");
            }
            assert("\x1b[23;5~"@ =~= tilde_seq(n, p));
            "\x1b[23;5~"
        },
        (23, Some('6')) => {
            proof {
                reveal_strlit("\x1b[23;6~");
            }
            assert("\x1b[23;6~"@ =~= tilde_seq(n, p));
            "\x1b[23;6~"
        },
        (24, None) => {
            proof {
                reveal_strlit("\x1b[24~");
            }
            assert("\x1b[24~"@ =~= tilde_seq(n, p));
            "\x1b[24~"
        },
        (24, Some('2')) => {
            proof {
                reveal_strlit("\x1b[24;2~");
            }
            assert("\x1b[24;2~"@ =~= tilde_seq(n, p));
            "\x1b[24;2~"
        },
        (24, Some('3')) => {
            proof {
                reveal_strlit("\x1b[24;3~");
            }
            assert("\x1b[24;3~"@ =~= tilde_seq(n, p));
            "\x1b[24;3~"
        },
        (24, Some('5')) => {
            proof {
                reveal_strlit("\x1b[24;5~");
            }
            assert("\x1b[24;5~"@ =~= tilde_seq(n, p));
            "\x1b[24;5~"
        },
        _ => {
            proof {
                reveal_strlit("\x1b[24;6~");
            }
            assert("\x1b[24;6~"@ =~= tilde_seq(n, p));
            "\x1b[24;6~"
        },
    }
}

/// The escape sequence a key sends, if any.
pub fn sequence_for(keyval: u32, mods: u32) -> (r: Option<&'static str>)
    ensures
        match r {
            Some(s) => escape_sequence(keyval, mods) == Some(s@),
            None => escape_sequence(keyval, mods) is None,
        },
{
    let p = modifier_digit(mods);
    match classify(keyval) {
        KeyClass::Tab => if mods & SHIFT_MASK != 0 {
            proof {
                reveal_strlit("\x1b[Z");
            }
            assert("\x1b[Z"@ =~= csi(seq!['Z']));
            Some("\x1b[Z")
        } else {
            None
        },
        KeyClass::Cursor(f) => Some(cursor_sequence(f, p)),
        KeyClass::Function(f) => Some(function_sequence(f, p)),
        KeyClass::Tilde(n) => Some(tilde_sequence(n, p)),
        _ => None,
    }
}

/// Encodes a key press. A press that the input method consumed produces no
/// event here: its text arrives through the input method's commit.
/// `unicode` is the key's Unicode value, as the toolkit resolves it.
pub fn encode(keyval: u32, mods: u32, ime_consumed: bool, unicode: Option<char>) -> (r: Option<
    Event,
>)
    ensures
        match r {
            Some(e) => !ime_consumed && e@ == key_event(keyval, mods, unicode),
            None => ime_consumed,
        },
{
    if ime_consumed {
        return None;
    }
    match sequence_for(keyval, mods) {
        Some(s) => Some(Event::StrInput(s)),
        None => {
            if classify(keyval) == KeyClass::Modifier {
                Some(Event::Blank)
            } else {
                let c = match unicode {
                    Some(c) => c,
                    None => (keyval as u8) as char,
                };
                Some(Event::CharInput(c, IsControlHeld(mods & CONTROL_MASK != 0)))
            }
        },
    }
}

/// Whether the key press must keep the toolkit from moving the focus:
/// Shift+Tab is sent to the terminal instead.
pub fn suppresses_focus_traversal(keyval: u32, mods: u32) -> (r: bool)
    ensures
        r == (key_class(keyval) is Tab && shift_held(mods)),
{
    (keyval == TAB || keyval == ISO_LEFT_TAB) && mods & SHIFT_MASK != 0
}

/// A letter's own key value (its ASCII code) is neither a navigation,
/// function nor modifier key: it types a character.
pub proof fn lemma_letter_keys_are_plain(c: char)
    requires
        ('a' <= c <= 'z') || ('A' <= c <= 'Z'),
    ensures
        key_class(c as u32) == KeyClass::Plain,
{
}

/// A character key whose Unicode value is an ASCII letter sends one byte:
/// with Control held, the letter's C0 control byte (bits `0x60` cleared:
/// Ctrl+A and Ctrl+a send 0x01, Ctrl+Z sends 0x1a); without, the letter.
pub proof fn lemma_control_letter(keyval: u32, mods: u32, c: char)
    requires
        ('a' <= c <= 'z') || ('A' <= c <= 'Z'),
        key_class(keyval) == KeyClass::Plain,
    ensures
        control_held(mods) ==> output_of(key_event(keyval, mods, Some(c))) == OutputView::Input(
            seq![((c as u32) as u8) & 0x1f],
        ),
        !control_held(mods) ==> output_of(key_event(keyval, mods, Some(c)))
            == OutputView::Input(seq![(c as u32) as u8]),
        'a' <= c <= 'z' && control_held(mods) ==> output_of(key_event(keyval, mods, Some(c)))
            == OutputView::Input(seq![(c as u32 - 'a' as u32 + 1) as u8]),
        'A' <= c <= 'Z' && control_held(mods) ==> output_of(key_event(keyval, mods, Some(c)))
            == OutputView::Input(seq![(c as u32 - 'A' as u32 + 1) as u8]),
{
    let v = c as u32;
    let b = (v & 0x7F) as u8;
    assert(vstd::utf8::encode_scalar(v) == seq![b]);
    assert(((v & 0x7F) as u8) as u32 == v) by (bit_vector)
        requires
            v < 0x80,
    ;
    assert(b == v as u8);
    assert(0x61 <= b <= 0x7a ==> b & !0x60u8 == b - 0x60 && b & 0x1f == b - 0x60) by (bit_vector);
    assert(0x41 <= b <= 0x5a ==> b & !0x60u8 == b - 0x40 && b & 0x1f == b - 0x40) by (bit_vector);
    assert(seq![b].map_values(|x: u8| control_byte(x)) =~= seq![control_byte(b)]);
}

/// Bare modifier keys produce `Blank`, which sends nothing to the PTY.
pub proof fn lemma_modifier_keys_send_nothing(keyval: u32, mods: u32, unicode: Option<char>)
    requires
        is_modifier_key(keyval),
    ensures
        key_event(keyval, mods, unicode) == EventView::Blank,
        output_of(key_event(keyval, mods, unicode)) == OutputView::Nothing,
{
    assert(key_class(keyval) == KeyClass::Modifier);
}

} // verus!
