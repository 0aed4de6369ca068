//! Events queued by the UI thread, and what applying each one does.
use vstd::prelude::*;
use vstd::utf8::{char_is_scalar, encode_scalar};

verus! {

/// Whether Control was held when a character key was pressed.
#[derive(Clone, Copy, Debug, PartialEq, Eq, Structural)]
pub struct IsControlHeld(pub bool);

/// One unit of pending work for the render cycle.
#[derive(Debug, PartialEq, Eq)]
pub enum Event {
    Blank,
    CharInput(char, IsControlHeld),
    StringInput(String),
    StrInput(&'static str),
    WindowResized(u32, u32),
    HiDPIFactorChanged(i32),
    ChangeFontSize(i8),
    ResetFontSize,
}

/// Mathematical view of an [`Event`]: texts become character sequences.
pub enum EventView {
    Blank,
    CharInput(char, bool),
    StringInput(Seq<char>),
    StrInput(Seq<char>),
    WindowResized(u32, u32),
    HiDPIFactorChanged(i32),
    ChangeFontSize(i8),
    ResetFontSize,
}

impl View for Event {
    type V = EventView;

    open spec fn view(&self) -> EventView {
        match self {
            Event::Blank => EventView::Blank,
            Event::CharInput(c, ctrl) => EventView::CharInput(*c, ctrl.0),
            Event::StringInput(s) => EventView::StringInput(s@),
            Event::StrInput(s) => EventView::StrInput(s@),
            Event::WindowResized(w, h) => EventView::WindowResized(*w, *h),
            Event::HiDPIFactorChanged(f) => EventView::HiDPIFactorChanged(*f),
            Event::ChangeFontSize(d) => EventView::ChangeFontSize(*d),
            Event::ResetFontSize => EventView::ResetFontSize,
        }
    }
}

/// What applying one event asks of the terminal backend.
#[derive(Debug, PartialEq, Eq)]
pub enum Output {
    /// Nothing to do.
    Nothing,
    /// Bytes for the PTY-input channel.
    Input(Vec<u8>),
    /// New geometry for the display's resize channel.
    Resize(u32, u32),
    /// New scale factor for the display.
    ScaleFactor(i32),
    /// Change the terminal model's font size by this many steps.
    ChangeFontSize(i8),
    /// Restore the terminal model's font size.
    ResetFontSize,
}

/// Mathematical view of an [`Output`].
pub enum OutputView {
    Nothing,
    Input(Seq<u8>),
    Resize(u32, u32),
    ScaleFactor(i32),
    ChangeFontSize(i8),
    ResetFontSize,
}

impl View for Output {
    type V = OutputView;

    open spec fn view(&self) -> OutputView {
        match self {
            Output::Nothing => OutputView::Nothing,
            Output::Input(b) => OutputView::Input(b@),
            Output::Resize(w, h) => OutputView::Resize(*w, *h),
            Output::ScaleFactor(f) => OutputView::ScaleFactor(*f),
            Output::ChangeFontSize(d) => OutputView::ChangeFontSize(*d),
            Output::ResetFontSize => OutputView::ResetFontSize,
        }
    }
}

impl OutputView {
    /// Geometry and scale changes leave the terminal model needing a redraw.
    pub open spec fn marks_dirty(self) -> bool {
        self is Resize || self is ScaleFactor
    }
}

impl Output {
    pub fn marks_dirty(&self) -> (r: bool)
        ensures
            r == self@.marks_dirty(),
    {
        match self {
            Output::Resize(_, _) => true,
            Output::ScaleFactor(_) => true,
            _ => false,
        }
    }
}

/// A byte typed with Control held: bytes in `0x40..0x80` lose bits `0x60`,
/// which turns a letter into its C0 control code.
pub open spec fn control_byte(b: u8) -> u8 {
    if 0x40 <= b < 0x80 {
        b & !0x60u8
    } else {
        b
    }
}

/// The bytes that a typed character sends.
pub open spec fn char_bytes(c: char, ctrl: bool) -> Seq<u8> {
    if ctrl {
        encode_scalar(c as u32).map_values(|b: u8| control_byte(b))
    } else {
        encode_scalar(c as u32)
    }
}

/// Every `\r\n` and every other `\n` becomes a single `\r`.
pub open spec fn normalize_newlines(s: Seq<u8>) -> Seq<u8>
    decreases s.len(),
{
    if s.len() == 0 {
        seq![]
    } else if s.len() >= 2 && s[0] == 0x0du8 && s[1] == 0x0au8 {
        seq![0x0du8] + normalize_newlines(s.subrange(2, s.len() as int))
    } else if s[0] == 0x0au8 {
        seq![0x0du8] + normalize_newlines(s.subrange(1, s.len() as int))
    } else {
        seq![s[0]] + normalize_newlines(s.subrange(1, s.len() as int))
    }
}

/// What the render cycle does with one event.
pub open spec fn output_of(e: EventView) -> OutputView {
    match e {
        EventView::Blank => OutputView::Nothing,
        EventView::CharInput(c, ctrl) => OutputView::Input(char_bytes(c, ctrl)),
        EventView::StrInput(s) => OutputView::Input(vstd::utf8::encode_utf8(s)),
        EventView::StringInput(s) => OutputView::Input(
            normalize_newlines(vstd::utf8::encode_utf8(s)),
        ),
        EventView::WindowResized(w, h) => OutputView::Resize(w, h),
        EventView::HiDPIFactorChanged(f) => OutputView::ScaleFactor(f),
        EventView::ChangeFontSize(d) => OutputView::ChangeFontSize(d),
        EventView::ResetFontSize => OutputView::ResetFontSize,
    }
}

/// UTF-8 encoding of one character.
pub fn utf8_bytes(c: char) -> (r: Vec<u8>)
    ensures
        r@ == encode_scalar(c as u32),
{
    let v: u32 = c as u32;
    let mut r: Vec<u8> = Vec::new();
    if v <= 0x7F {
        r.push((v & 0x7F) as u8);
    } else if v <= 0x7FF {
        r.push(0xC0 | ((v >> 6) & 0x1F) as u8);
        r.push(0x80 | (v & 0x3F) as u8);
    } else if v <= 0xFFFF {
        r.push(0xE0 | ((v >> 12) & 0x0F) as u8);
        r.push(0x80 | ((v >> 6) & 0x3F) as u8);
        r.push(0x80 | (v & 0x3F) as u8);
    } else {
        r.push(0xF0 | ((v >> 18) & 0x7) as u8);
        r.push(0x80 | ((v >> 12) & 0x3F) as u8);
        r.push(0x80 | ((v >> 6) & 0x3F) as u8);
        r.push(0x80 | (v & 0x3F) as u8);
    }
    proof {
        char_is_scalar(c);
    }
    assert(r@ =~= encode_scalar(v));
    r
}

/// The bytes that a typed character sends, with Control applied when held.
pub fn char_input_bytes(c: char, ctrl: bool) -> (r: Vec<u8>)
    ensures
        r@ == char_bytes(c, ctrl),
{
    let mut r = utf8_bytes(c);
    if ctrl {
        let ghost plain = r@;
        let n = r.len();
        let mut i: usize = 0;
        while i < n
            invariant
                n == r@.len(),
                n == plain.len(),
                i <= n,
                forall|j: int| 0 <= j < i ==> r@[j] == control_byte(#[trigger] plain[j]),
                forall|j: int| i <= j < n ==> r@[j] == plain[j],
            decreases n - i,
        {
            let b = r[i];
            if b >= 0x40 && b < 0x80 {
                r.set(i, b & !0x60u8);
            }
            i = i + 1;
        }
        assert(r@ =~= plain.map_values(|b: u8| control_byte(b)));
    }
    r
}

/// The UTF-8 bytes of a text.
fn text_bytes(s: &str) -> (r: Vec<u8>)
    ensures
        r@ == vstd::utf8::encode_utf8(s@),
{
    let b = s.as_bytes();
    let mut r: Vec<u8> = Vec::new();
    let mut i: usize = 0;
    while i < b.len()
        invariant
            b@ == vstd::utf8::encode_utf8(s@),
            i <= b@.len(),
            r@ == b@.subrange(0, i as int),
        decreases b@.len() - i,
    {
        r.push(b[i]);
        i = i + 1;
        assert(r@ =~= b@.subrange(0, i as int));
    }
    assert(r@ =~= b@);
    r
}

/// Replaces every `\r\n`, and every other `\n`, with `\r`.
pub fn normalized_newlines(b: &Vec<u8>) -> (r: Vec<u8>)
    ensures
        r@ == normalize_newlines(b@),
{
    let n = b.len();
    let mut r: Vec<u8> = Vec::new();
    let mut i: usize = 0;
    assert(b@.subrange(0, n as int) =~= b@);
    assert(r@ + normalize_newlines(b@) =~= normalize_newlines(b@));
    while i < n
        invariant
            n == b@.len(),
            i <= n,
            normalize_newlines(b@) == r@ + normalize_newlines(b@.subrange(i as int, n as int)),
        decreases n - i,
    {
        let ghost rest = b@.subrange(i as int, n as int);
        if i + 1 < n && b[i] == 0x0d && b[i + 1] == 0x0a {
            r.push(0x0d);
            assert(rest.subrange(2, rest.len() as int) =~= b@.subrange(i + 2, n as int));
            i = i + 2;
        } else if b[i] == 0x0a {
            r.push(0x0d);
            assert(rest.subrange(1, rest.len() as int) =~= b@.subrange(i + 1, n as int));
            i = i + 1;
        } else {
            r.push(b[i]);
            assert(rest.subrange(1, rest.len() as int) =~= b@.subrange(i + 1, n as int));
            i = i + 1;
        }
    }
    assert(b@.subrange(n as int, n as int) =~= Seq::<u8>::empty());
    r
}

/// Applies one event: what the render cycle asks of the backend for it.
pub fn output_for(e: &Event) -> (r: Output)
    ensures
        r@ == output_of(e@),
{
    match e {
        Event::Blank => Output::Nothing,
        Event::CharInput(c, ctrl) => Output::Input(char_input_bytes(*c, ctrl.0)),
        Event::StrInput(s) => Output::Input(text_bytes(s)),
        Event::StringInput(s) => {
            let raw = text_bytes(s.as_str());
            Output::Input(normalized_newlines(&raw))
        },
        Event::WindowResized(w, h) => Output::Resize(*w, *h),
        Event::HiDPIFactorChanged(f) => Output::ScaleFactor(*f),
        Event::ChangeFontSize(d) => Output::ChangeFontSize(*d),
        Event::ResetFontSize => Output::ResetFontSize,
    }
}

} // verus!
