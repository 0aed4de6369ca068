use galacritty::event::{Event, IsControlHeld};
use galacritty::keys::{
    encode, suppresses_focus_traversal, ALT_L, CAPS_LOCK, CONTROL_L, CONTROL_MASK, CONTROL_R,
    DELETE, DOWN, F1, F12, F3, F4, F5, HYPER_L, HYPER_R, INSERT, ISO_LEFT_TAB, KP_PAGE_UP, KP_UP,
    LEFT, META_L, META_MASK, META_R, MODE_LOCK, MOD1_MASK, PAGE_DOWN, PAGE_UP, RIGHT,
    SCROLL_LOCK, SHIFT_L, SHIFT_LOCK, SHIFT_MASK, SHIFT_R, SUPER_L, SUPER_R, TAB, UP, ALT_R,
};

fn seq_of(keyval: u32, mods: u32) -> &'static str {
    match encode(keyval, mods, false, None) {
        Some(Event::StrInput(s)) => s,
        other => panic!("expected an escape sequence, got {:?}", other),
    }
}

#[test]
fn bare_up_sends_csi_a() {
    assert_eq!(seq_of(UP, 0), "\x1b[A");
}

#[test]
fn shift_up_sends_parameter_two() {
    assert_eq!(seq_of(UP, SHIFT_MASK), "\x1b[1;2A");
}

#[test]
fn f5_sends_fifteen_tilde() {
    assert_eq!(seq_of(F5, 0), "\x1b[15~");
}

#[test]
fn shift_tab_sends_csi_z() {
    assert_eq!(seq_of(TAB, SHIFT_MASK), "\x1b[Z");
    assert_eq!(seq_of(ISO_LEFT_TAB, SHIFT_MASK), "\x1b[Z");
}

#[test]
fn f1_uses_ss3_unmodified() {
    assert_eq!(seq_of(F1, 0), "\x1bOP");
    assert_eq!(seq_of(F4, 0), "\x1bOS");
}

#[test]
fn modifier_parameters_follow_csi_convention() {
    assert_eq!(seq_of(DOWN, MOD1_MASK), "\x1b[1;3B");
    assert_eq!(seq_of(RIGHT, META_MASK), "\x1b[1;3C");
    assert_eq!(seq_of(LEFT, CONTROL_MASK), "\x1b[1;5D");
    assert_eq!(seq_of(LEFT, CONTROL_MASK | MOD1_MASK), "\x1b[1;6D");
    assert_eq!(seq_of(F3, MOD1_MASK), "\x1b[1;3R");
    assert_eq!(seq_of(F1, CONTROL_MASK | META_MASK), "\x1b[1;6P");
    assert_eq!(seq_of(F12, SHIFT_MASK), "\x1b[24;2~");
    assert_eq!(seq_of(F5, CONTROL_MASK), "\x1b[15;5~");
}

#[test]
fn ctrl_alt_is_more_specific_than_shift() {
    assert_eq!(seq_of(UP, SHIFT_MASK | CONTROL_MASK | MOD1_MASK), "\x1b[1;6A");
    assert_eq!(seq_of(UP, SHIFT_MASK | CONTROL_MASK), "\x1b[1;2A");
}

#[test]
fn navigation_keys_use_tilde_sequences() {
    assert_eq!(seq_of(PAGE_UP, 0), "\x1b[5~");
    assert_eq!(seq_of(KP_PAGE_UP, SHIFT_MASK), "\x1b[5;2~");
    assert_eq!(seq_of(PAGE_DOWN, CONTROL_MASK), "\x1b[6;5~");
    assert_eq!(seq_of(INSERT, 0), "\x1b[2~");
    assert_eq!(seq_of(DELETE, 0), "\x1b[3~");
    assert_eq!(seq_of(DELETE, MOD1_MASK), "\x1b[3;3~");
}

#[test]
fn keypad_arrows_match_main_arrows() {
    assert_eq!(seq_of(KP_UP, 0), "\x1b[A");
    assert_eq!(seq_of(KP_UP, CONTROL_MASK), "\x1b[1;5A");
}

#[test]
fn modifier_keys_are_blank() {
    for k in [
        SHIFT_L, SHIFT_R, CONTROL_L, CONTROL_R, ALT_L, ALT_R, META_L, META_R, SUPER_L, SUPER_R,
        HYPER_L, HYPER_R, CAPS_LOCK, SCROLL_LOCK, SHIFT_LOCK, MODE_LOCK,
    ] {
        assert_eq!(encode(k, SHIFT_MASK | CONTROL_MASK, false, None), Some(Event::Blank));
    }
}

#[test]
fn ime_consumed_key_produces_nothing() {
    assert_eq!(encode(UP, 0, true, None), None);
    assert_eq!(encode(0x61, 0, true, Some('a')), None);
}

#[test]
fn letters_become_char_input() {
    assert_eq!(
        encode(0x61, 0, false, Some('a')),
        Some(Event::CharInput('a', IsControlHeld(false)))
    );
    assert_eq!(
        encode(0x61, CONTROL_MASK, false, Some('a')),
        Some(Event::CharInput('a', IsControlHeld(true)))
    );
}

#[test]
fn key_without_unicode_falls_back_to_low_byte() {
    // Return has no Unicode value of its own here; its low byte is '\r'.
    assert_eq!(
        encode(0xff0d, 0, false, None),
        Some(Event::CharInput('\r', IsControlHeld(false)))
    );
    assert_eq!(encode(TAB, 0, false, None), Some(Event::CharInput('\t', IsControlHeld(false))));
}

#[test]
fn only_shift_tab_keeps_focus() {
    assert!(suppresses_focus_traversal(TAB, SHIFT_MASK));
    assert!(suppresses_focus_traversal(ISO_LEFT_TAB, SHIFT_MASK));
    assert!(!suppresses_focus_traversal(TAB, 0));
    assert!(!suppresses_focus_traversal(UP, SHIFT_MASK));
}
