use keydisp::keycode::{map_virtual_key, KeyCode};
use keydisp::pipeline::CapturePipeline;

const VK_F10: u32 = 0x79;
const VK_A: u32 = 0x41;
const VK_LSHIFT: u32 = 0xA0;
const W: u64 = 0x4242;
const OTHER: u64 = 0x9999;

fn captured_pipeline() -> CapturePipeline {
    let mut p = CapturePipeline::new(KeyCode::F10);
    let out = p.on_key_message(true, VK_F10, &Vec::new(), W);
    assert_eq!(out, Vec::<char>::new());
    p
}

#[test]
fn known_and_unknown_virtual_keys() {
    assert_eq!(map_virtual_key(VK_A), Some(KeyCode::A));
    assert_eq!(map_virtual_key(VK_F10), Some(KeyCode::F10));
    assert_eq!(map_virtual_key(0x07), None);
    assert_eq!(map_virtual_key(0xFF), None);
    assert_eq!(map_virtual_key(0x1234), None);
}

#[test]
fn keystroke_with_text_reaches_viewers() {
    let mut p = captured_pipeline();
    let out = p.on_key_message(true, VK_A, &vec![0x0061], W);
    assert_eq!(out, vec!['a']);
}

#[test]
fn keystroke_in_unfocused_window_is_silent() {
    let mut p = captured_pipeline();
    let out = p.on_key_message(true, VK_A, &vec![0x0061], OTHER);
    assert_eq!(out, Vec::<char>::new());
}

#[test]
fn shift_keystroke_emits_glyph_once() {
    let mut p = captured_pipeline();
    let out = p.on_key_message(true, VK_LSHIFT, &Vec::new(), W);
    assert_eq!(out, vec!['\u{21E7}']);
    // OS auto-repeat of the held modifier
    let out = p.on_key_message(true, VK_LSHIFT, &Vec::new(), W);
    assert_eq!(out, Vec::<char>::new());
    let out = p.on_key_message(false, VK_LSHIFT, &Vec::new(), W);
    assert_eq!(out, Vec::<char>::new());
}

#[test]
fn surrogate_pair_in_one_message_decodes() {
    let mut p = captured_pipeline();
    // an unknown native code delivering U+1F600 as its two code units
    let out = p.on_key_message(true, 0xE7, &vec![0xD83D, 0xDE00], W);
    assert_eq!(out, vec!['\u{1F600}']);
}

#[test]
fn invalid_unit_becomes_replacement_character() {
    let mut p = captured_pipeline();
    // a lone trailing surrogate cannot be decoded
    let out = p.on_key_message(true, 0xE7, &vec![0xDC00], W);
    assert_eq!(out, vec!['\u{FFFD}']);
}

#[test]
fn whitespace_from_keystroke_shows_glyph_not_char() {
    let mut p = captured_pipeline();
    // Enter delivers a control character; only the key glyph is shown
    let out = p.on_key_message(true, 0x0D, &vec![0x000D], W);
    assert_eq!(out, vec!['\u{23CE}']);
}

#[test]
fn several_units_keep_their_order() {
    let mut p = captured_pipeline();
    let out = p.on_key_message(true, 0xE7, &vec![0x0068, 0x0069, 0x0021], W);
    assert_eq!(out, vec!['h', 'i', '!']);
}

#[test]
fn key_up_produces_no_text() {
    let mut p = captured_pipeline();
    let out = p.on_key_message(false, VK_A, &Vec::new(), W);
    assert_eq!(out, Vec::<char>::new());
}
