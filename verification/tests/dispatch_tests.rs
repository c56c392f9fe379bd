use keydisp::common::{Event, KeyState};
use keydisp::dispatch::{get_send_char, is_suppressed, modifier_index, Dispatcher};
use keydisp::keycode::KeyCode;

const SHIFT_GLYPH: char = '\u{21E7}';
const HOTKEY: KeyCode = KeyCode::F10;
const W: u64 = 0x1000;
const OTHER: u64 = 0x2000;

fn key(scancode: KeyCode, key_state: KeyState) -> Event {
    Event::Key { scancode, key_state }
}

fn captured_dispatcher() -> Dispatcher {
    // designate W as the capture target via the hotkey
    let mut d = Dispatcher::new(HOTKEY);
    assert_eq!(d.on_event(key(HOTKEY, KeyState::Pressed), W), None);
    d
}

#[test]
fn no_output_before_any_hotkey_press() {
    let mut d = Dispatcher::new(HOTKEY);
    assert_eq!(d.on_event(Event::Char('a'), W), None);
    assert_eq!(d.on_event(key(KeyCode::A, KeyState::Pressed), W), None);
}

#[test]
fn char_emitted_only_while_target_has_focus() {
    let mut d = captured_dispatcher();
    assert_eq!(d.on_event(Event::Char('a'), W), Some('a'));
    assert_eq!(d.on_event(Event::Char('a'), OTHER), None);
    assert_eq!(d.on_event(Event::Char('a'), W), Some('a'));
}

#[test]
fn no_output_for_any_event_when_other_window_focused() {
    let mut d = captured_dispatcher();
    assert_eq!(d.on_event(Event::Char('x'), OTHER), None);
    assert_eq!(d.on_event(key(KeyCode::Enter, KeyState::Pressed), OTHER), None);
    assert_eq!(d.on_event(key(KeyCode::LeftShift, KeyState::Pressed), OTHER), None);
    assert_eq!(d.on_event(key(KeyCode::A, KeyState::Released), OTHER), None);
}

#[test]
fn hotkey_press_on_other_window_retargets() {
    let mut d = captured_dispatcher();
    // the hotkey press itself targets OTHER, so W no longer emits
    assert_eq!(d.on_event(key(HOTKEY, KeyState::Pressed), OTHER), None);
    assert_eq!(d.on_event(Event::Char('a'), W), None);
    assert_eq!(d.on_event(Event::Char('a'), OTHER), Some('a'));
}

#[test]
fn modifier_glyph_on_press_only_suppressed_on_repeat() {
    let mut d = captured_dispatcher();
    assert_eq!(d.on_event(key(KeyCode::LeftShift, KeyState::Pressed), W), Some(SHIFT_GLYPH));
    assert_eq!(d.on_event(key(KeyCode::LeftShift, KeyState::Pressed), W), None);
    assert_eq!(d.on_event(key(KeyCode::LeftShift, KeyState::Released), W), None);
    // after release, the next press shows the glyph again
    assert_eq!(d.on_event(key(KeyCode::LeftShift, KeyState::Pressed), W), Some(SHIFT_GLYPH));
}

#[test]
fn left_and_right_variants_share_one_slot() {
    let mut d = captured_dispatcher();
    assert_eq!(d.on_event(key(KeyCode::LeftShift, KeyState::Pressed), W), Some(SHIFT_GLYPH));
    // right shift while left shift is still held must not re-emit
    assert_eq!(d.on_event(key(KeyCode::RightShift, KeyState::Pressed), W), None);
}

#[test]
fn non_modifier_glyph_on_press_silent_on_release() {
    let mut d = captured_dispatcher();
    assert_eq!(d.on_event(key(KeyCode::Enter, KeyState::Pressed), W), Some('\u{23CE}'));
    assert_eq!(d.on_event(key(KeyCode::Enter, KeyState::Released), W), None);
    // auto-repeat of a non-modifier key re-emits
    assert_eq!(d.on_event(key(KeyCode::Enter, KeyState::Pressed), W), Some('\u{23CE}'));
}

#[test]
fn key_without_glyph_emits_nothing() {
    let mut d = captured_dispatcher();
    assert_eq!(d.on_event(key(KeyCode::A, KeyState::Pressed), W), None);
    assert_eq!(d.on_event(key(KeyCode::A, KeyState::Released), W), None);
}

#[test]
fn control_and_whitespace_chars_never_emitted() {
    let mut d = captured_dispatcher();
    assert_eq!(d.on_event(Event::Char('\n'), W), None);
    assert_eq!(d.on_event(Event::Char('\t'), W), None);
    assert_eq!(d.on_event(Event::Char(' '), W), None);
    assert_eq!(d.on_event(Event::Char('\u{7F}'), W), None);
    assert_eq!(d.on_event(Event::Char('\u{A0}'), W), None);
    assert_eq!(d.on_event(Event::Char('\u{2028}'), W), None);
    // a printable character still goes through
    assert_eq!(d.on_event(Event::Char('!'), W), Some('!'));
}

#[test]
fn suppressed_char_classification() {
    assert!(is_suppressed('\n'));
    assert!(is_suppressed('\t'));
    assert!(is_suppressed(' '));
    assert!(is_suppressed('\u{85}'));
    assert!(is_suppressed('\u{3000}'));
    assert!(!is_suppressed('a'));
    assert!(!is_suppressed('\u{21E7}'));
}

#[test]
fn modifier_slots_are_shared_per_modifier() {
    assert_eq!(modifier_index(KeyCode::LeftShift), Some(0));
    assert_eq!(modifier_index(KeyCode::RightShift), Some(0));
    assert_eq!(modifier_index(KeyCode::LeftControl), Some(1));
    assert_eq!(modifier_index(KeyCode::RightControl), Some(1));
    assert_eq!(modifier_index(KeyCode::LeftAlt), Some(2));
    assert_eq!(modifier_index(KeyCode::RightAlt), Some(2));
    assert_eq!(modifier_index(KeyCode::CapsLock), Some(3));
    assert_eq!(modifier_index(KeyCode::A), None);
    assert_eq!(modifier_index(KeyCode::F10), None);
}

#[test]
fn glyph_table_matches_display_symbols() {
    assert_eq!(get_send_char(KeyCode::LeftShift), Some('\u{21E7}'));
    assert_eq!(get_send_char(KeyCode::CapsLock), Some('\u{21EA}'));
    assert_eq!(get_send_char(KeyCode::Escape), Some('\u{238B}'));
    assert_eq!(get_send_char(KeyCode::Space), Some('\u{2423}'));
    assert_eq!(get_send_char(KeyCode::Backspace), Some('\u{232B}'));
    assert_eq!(get_send_char(KeyCode::Up), Some('\u{2191}'));
    assert_eq!(get_send_char(KeyCode::A), None);
    assert_eq!(get_send_char(KeyCode::F10), None);
}
