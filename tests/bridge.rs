use galacritty::bridge::Widget;
use galacritty::event::{char_input_bytes, normalized_newlines, output_for, utf8_bytes, Event, IsControlHeld, Output};
use galacritty::keys::{encode, CONTROL_MASK, SHIFT_L};

fn realized() -> Widget<u32> {
    let mut w: Widget<u32> = Widget::new();
    w.realize(7);
    w
}

#[test]
fn render_drains_in_push_order() {
    let mut w = realized();
    w.push(Event::StrInput("\x1b[A"));
    w.push(Event::WindowResized(10, 20));
    w.push(Event::Blank);
    w.push(Event::ChangeFontSize(-1));
    w.push(Event::ResetFontSize);
    w.push(Event::HiDPIFactorChanged(2));
    let out = w.render();
    assert_eq!(
        out,
        vec![
            Output::Input(b"\x1b[A".to_vec()),
            Output::Resize(10, 20),
            Output::Nothing,
            Output::ChangeFontSize(-1),
            Output::ResetFontSize,
            Output::ScaleFactor(2),
        ]
    );
    assert!(w.render().is_empty());
}

#[test]
fn pasted_newlines_become_carriage_returns() {
    let mut w = realized();
    w.push(Event::StringInput("\r\nabc\ndef".to_string()));
    assert_eq!(w.render(), vec![Output::Input(b"\rabc\rdef".to_vec())]);
}

#[test]
fn resize_sends_once_and_marks_dirty() {
    let mut w = realized();
    w.push(Event::WindowResized(800, 600));
    let out = w.render();
    assert_eq!(out, vec![Output::Resize(800, 600)]);
    assert!(out[0].marks_dirty());
}

#[test]
fn only_geometry_and_scale_mark_dirty() {
    assert!(Output::ScaleFactor(2).marks_dirty());
    assert!(!Output::Input(vec![1]).marks_dirty());
    assert!(!Output::ChangeFontSize(1).marks_dirty());
    assert!(!Output::Nothing.marks_dirty());
}

#[test]
fn control_letters_send_c0_bytes() {
    assert_eq!(char_input_bytes('a', true), vec![0x01]);
    assert_eq!(char_input_bytes('A', true), vec![0x01]);
    assert_eq!(char_input_bytes('z', true), vec![0x1a]);
    assert_eq!(char_input_bytes('Z', true), vec![0x1a]);
    assert_eq!(char_input_bytes('a', false), vec![b'a']);
}

#[test]
fn ctrl_a_key_press_sends_one_byte() {
    let ev = encode(0x61, CONTROL_MASK, false, Some('a')).unwrap();
    assert_eq!(output_for(&ev), Output::Input(vec![0x01]));
}

#[test]
fn letter_key_press_without_control_sends_the_letter() {
    let ev = encode(0x5a, 0, false, Some('Z')).unwrap();
    assert_eq!(output_for(&ev), Output::Input(vec![b'Z']));
    let ev = encode(0x5a, CONTROL_MASK, false, Some('Z')).unwrap();
    assert_eq!(output_for(&ev), Output::Input(vec![0x1a]));
}

#[test]
fn modifier_key_press_sends_nothing() {
    let mut w = realized();
    w.push(encode(SHIFT_L, 0, false, None).unwrap());
    assert_eq!(w.render(), vec![Output::Nothing]);
}

#[test]
fn control_leaves_multibyte_characters_alone() {
    assert_eq!(char_input_bytes('é', true), "é".as_bytes().to_vec());
    assert_eq!(
        output_for(&Event::CharInput('€', IsControlHeld(true))),
        Output::Input("€".as_bytes().to_vec())
    );
}

#[test]
fn utf8_of_each_width() {
    assert_eq!(utf8_bytes('a'), vec![0x61]);
    assert_eq!(utf8_bytes('é'), vec![0xc3, 0xa9]);
    assert_eq!(utf8_bytes('€'), vec![0xe2, 0x82, 0xac]);
    assert_eq!(utf8_bytes('😀'), vec![0xf0, 0x9f, 0x98, 0x80]);
}

#[test]
fn newline_normalization_edge_cases() {
    assert_eq!(normalized_newlines(&b"".to_vec()), b"".to_vec());
    assert_eq!(normalized_newlines(&b"\r\r\n\n".to_vec()), b"\r\r\r".to_vec());
    assert_eq!(normalized_newlines(&b"a\r".to_vec()), b"a\r".to_vec());
}

#[test]
fn unrealized_widget_drops_events() {
    let mut w: Widget<u32> = Widget::new();
    assert!(!w.is_realized());
    w.push(Event::Blank);
    assert!(w.render().is_empty());
}

#[test]
fn unrealize_returns_backend() {
    let mut w = realized();
    assert!(w.is_realized());
    w.push(Event::Blank);
    assert_eq!(w.unrealize(), Some(7));
    assert!(!w.is_realized());
    assert_eq!(w.unrealize(), None);
    w.realize(9);
    assert!(w.render().is_empty());
}
