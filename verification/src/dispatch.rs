//! The capture dispatcher: tracks modifier key state and the designated
//! capture window, gates every event on that window, suppresses modifier
//! auto-repeats, and maps special keys to display glyphs.

use vstd::prelude::*;

use vstd::array::ArrayAdditionalExecFns;

use crate::common::{Event, KeyState};
use crate::keycode::KeyCode;

verus! {

/// The number of modifier slots: Shift, Control, Alt, CapsLock.
pub const MODIFIER_SLOTS: usize = 4;

/// The modifier slot a key belongs to, if any. Left/right variants of
/// Shift, Control and Alt share one slot.
pub open spec fn modifier_slot(key: KeyCode) -> Option<usize> {
    match key {
        KeyCode::LeftShift => Some(0usize),
        KeyCode::RightShift => Some(0usize),
        KeyCode::LeftControl => Some(1usize),
        KeyCode::RightControl => Some(1usize),
        KeyCode::LeftAlt => Some(2usize),
        KeyCode::RightAlt => Some(2usize),
        KeyCode::CapsLock => Some(3usize),
        _ => None,
    }
}

/// The slot in the modifier state that `key` updates, if it is a modifier.
pub fn modifier_index(key: KeyCode) -> (r: Option<usize>)
    ensures
        r == modifier_slot(key),
        r matches Some(i) ==> i < MODIFIER_SLOTS,
{
    match key {
        KeyCode::LeftShift => Some(0),
        KeyCode::RightShift => Some(0),
        KeyCode::LeftControl => Some(1),
        KeyCode::RightControl => Some(1),
        KeyCode::LeftAlt => Some(2),
        KeyCode::RightAlt => Some(2),
        KeyCode::CapsLock => Some(3),
        _ => None,
    }
}

/// The display glyph for a key, if it has one. Modifier and a fixed set of
/// control/navigation keys each show one visual symbol; all other keys rely
/// on the character path for visible output.
pub open spec fn send_char(key: KeyCode) -> Option<char> {
    match key {
        KeyCode::LeftShift => Some('\u{21E7}'),
        KeyCode::RightShift => Some('\u{21E7}'),
        KeyCode::LeftControl => Some('\u{2303}'),
        KeyCode::RightControl => Some('\u{2303}'),
        KeyCode::LeftAlt => Some('\u{2387}'),
        KeyCode::RightAlt => Some('\u{2387}'),
        KeyCode::CapsLock => Some('\u{21EA}'),
        KeyCode::Escape => Some('\u{238B}'),
        KeyCode::Tab => Some('\u{21E5}'),
        KeyCode::Space => Some('\u{2423}'),
        KeyCode::Enter => Some('\u{23CE}'),
        KeyCode::Backspace => Some('\u{232B}'),
        KeyCode::Delete => Some('\u{2326}'),
        KeyCode::Home => Some('\u{21F1}'),
        KeyCode::End => Some('\u{21F2}'),
        KeyCode::PageUp => Some('\u{21DE}'),
        KeyCode::PageDown => Some('\u{21DF}'),
        KeyCode::Up => Some('\u{2191}'),
        KeyCode::Down => Some('\u{2193}'),
        KeyCode::Left => Some('\u{2190}'),
        KeyCode::Right => Some('\u{2192}'),
        _ => None,
    }
}

/// The display glyph for a key, if it has one.
pub fn get_send_char(key: KeyCode) -> (r: Option<char>)
    ensures
        r == send_char(key),
{
    match key {
        KeyCode::LeftShift => Some('\u{21E7}'),
        KeyCode::RightShift => Some('\u{21E7}'),
        KeyCode::LeftControl => Some('\u{2303}'),
        KeyCode::RightControl => Some('\u{2303}'),
        KeyCode::LeftAlt => Some('\u{2387}'),
        KeyCode::RightAlt => Some('\u{2387}'),
        KeyCode::CapsLock => Some('\u{21EA}'),
        KeyCode::Escape => Some('\u{238B}'),
        KeyCode::Tab => Some('\u{21E5}'),
        KeyCode::Space => Some('\u{2423}'),
        KeyCode::Enter => Some('\u{23CE}'),
        KeyCode::Backspace => Some('\u{232B}'),
        KeyCode::Delete => Some('\u{2326}'),
        KeyCode::Home => Some('\u{21F1}'),
        KeyCode::End => Some('\u{21F2}'),
        KeyCode::PageUp => Some('\u{21DE}'),
        KeyCode::PageDown => Some('\u{21DF}'),
        KeyCode::Up => Some('\u{2191}'),
        KeyCode::Down => Some('\u{2193}'),
        KeyCode::Left => Some('\u{2190}'),
        KeyCode::Right => Some('\u{2192}'),
        _ => None,
    }
}

/// True of characters that are never forwarded to viewers: the control
/// ranges U+0000..U+001F and U+007F..U+009F, and the characters with the
/// Unicode White_Space property.
pub open spec fn is_suppressed_char(c: char) -> bool {
    let u = c as u32;
    ||| u <= 0x20
    ||| (0x7F <= u && u <= 0xA0)
    ||| u == 0x1680
    ||| (0x2000 <= u && u <= 0x200A)
    ||| u == 0x2028
    ||| u == 0x2029
    ||| u == 0x202F
    ||| u == 0x205F
    ||| u == 0x3000
}

/// Whether a decoded character is a control or whitespace character, which
/// the dispatcher discards.
pub fn is_suppressed(c: char) -> (r: bool)
    ensures
        r == is_suppressed_char(c),
{
    let u = c as u32;
    u <= 0x20 || (0x7F <= u && u <= 0xA0) || u == 0x1680 || (0x2000 <= u && u <= 0x200A) || u
        == 0x2028 || u == 0x2029 || u == 0x202F || u == 0x205F || u == 0x3000
}

/// The mathematical state of a [`Dispatcher`]: the four modifier slots,
/// the capture target (an opaque window identifier), and the configured
/// hotkey.
pub struct DispatchState {
    pub modifiers: Seq<KeyState>,
    pub target: Option<u64>,
    pub hotkey: KeyCode,
}

impl DispatchState {
    /// A dispatcher state always holds exactly one entry per modifier slot.
    pub open spec fn wf(self) -> bool {
        self.modifiers.len() == MODIFIER_SLOTS
    }
}

/// True when the event is a press of the configured hotkey, which (and
/// only which) re-designates the capture target.
pub open spec fn is_hotkey_press(s: DispatchState, event: Event) -> bool {
    match event {
        Event::Key { scancode, key_state } => scancode == s.hotkey && key_state
            == KeyState::Pressed,
        Event::Char(_) => false,
    }
}

/// The dispatcher's transition function: from a state and one incoming
/// event (with the window holding focus as the event arrives), the next
/// state and the character to broadcast, if any. The rules, in order:
/// a hotkey press re-targets capture to the focused window; an event whose
/// focused window is not the capture target produces nothing; a character
/// is forwarded unless control or whitespace; a modifier key updates its
/// slot and shows its glyph only on a Released-to-Pressed edge; any other
/// key shows its glyph (if it has one) on press only.
pub open spec fn step(s: DispatchState, event: Event, fg_window: u64) -> (DispatchState, Option<
    char,
>)
    recommends
        s.wf(),
{
    let s1 = if is_hotkey_press(s, event) {
        DispatchState { target: Some(fg_window), ..s }
    } else {
        s
    };
    if s1.target != Some(fg_window) {
        (s1, None)
    } else {
        match event {
            Event::Char(c) => (
                s1,
                if is_suppressed_char(c) {
                    None
                } else {
                    Some(c)
                },
            ),
            Event::Key { scancode, key_state } => match modifier_slot(scancode) {
                Some(idx) => {
                    let prev = s1.modifiers[idx as int];
                    let s2 = DispatchState {
                        modifiers: s1.modifiers.update(idx as int, key_state),
                        ..s1
                    };
                    (
                        s2,
                        if prev == KeyState::Released {
                            send_char(scancode)
                        } else {
                            None
                        },
                    )
                },
                None => (
                    s1,
                    if key_state == KeyState::Pressed {
                        send_char(scancode)
                    } else {
                        None
                    },
                ),
            },
        }
    }
}

/// Gating law: only a hotkey press changes the capture target, and an
/// event whose focused window is not the capture target (as it stands
/// after any re-targeting by that very event) produces no output, whatever
/// the event.
pub proof fn lemma_gating(s: DispatchState, event: Event, fg_window: u64)
    requires
        s.wf(),
    ensures
        !is_hotkey_press(s, event) ==> step(s, event, fg_window).0.target == s.target,
        step(s, event, fg_window).0.target != Some(fg_window) ==> step(
            s,
            event,
            fg_window,
        ).1 is None,
{
}

/// Modifier glyphs are edge-triggered: starting from all slots Released
/// and with the capture target in focus, pressing a modifier key shows its
/// glyph; a second press on the same slot (the same key auto-repeating, or
/// its left/right sibling) shows nothing; releasing shows nothing.
pub proof fn lemma_modifier_edge_trigger(
    s: DispatchState,
    k1: KeyCode,
    k2: KeyCode,
    fg_window: u64,
)
    requires
        s.wf(),
        s.target == Some(fg_window),
        forall|i: int| 0 <= i < s.modifiers.len() ==> s.modifiers[i] == KeyState::Released,
        modifier_slot(k1) is Some,
        modifier_slot(k2) == modifier_slot(k1),
    ensures
        ({
            let (s1, out1) = step(
                s,
                Event::Key { scancode: k1, key_state: KeyState::Pressed },
                fg_window,
            );
            let (s2, out2) = step(
                s1,
                Event::Key { scancode: k2, key_state: KeyState::Pressed },
                fg_window,
            );
            let (s3, out3) = step(
                s2,
                Event::Key { scancode: k1, key_state: KeyState::Released },
                fg_window,
            );
            &&& out1 == send_char(k1)
            &&& out1 is Some
            &&& out2 is None
            &&& out3 is None
        }),
{
}

/// Re-targeting law: after a hotkey press while window `w` has focus, a
/// non-suppressed character arriving with focus still on `w` is forwarded,
/// and the same character arriving with focus on any other window is not.
pub proof fn lemma_hotkey_retarget(s: DispatchState, c: char, w: u64, other: u64)
    requires
        s.wf(),
        !is_suppressed_char(c),
        other != w,
    ensures
        ({
            let s1 = step(s, Event::Key { scancode: s.hotkey, key_state: KeyState::Pressed }, w).0;
            &&& step(s1, Event::Char(c), w).1 == Some(c)
            &&& step(s1, Event::Char(c), other).1 is None
        }),
{
}

/// Control and whitespace characters are never forwarded, even when the
/// capture target has focus.
pub proof fn lemma_suppressed_never_emitted(s: DispatchState, c: char, fg_window: u64)
    requires
        s.wf(),
        is_suppressed_char(c),
    ensures
        step(s, Event::Char(c), fg_window).1 is None,
{
}

/// The capture dispatcher. Holds the modifier state (one slot each for
/// Shift, Control, Alt and CapsLock), the capture target, and the hotkey.
#[derive(Debug)]
pub struct Dispatcher {
    modifier_state: [KeyState; 4],
    input_window: Option<u64>,
    hotkey: KeyCode,
}

impl View for Dispatcher {
    type V = DispatchState;

    closed spec fn view(&self) -> DispatchState {
        DispatchState {
            modifiers: self.modifier_state@,
            target: self.input_window,
            hotkey: self.hotkey,
        }
    }
}

impl Dispatcher {
    /// A fresh dispatcher: every modifier slot Released, no capture target
    /// designated yet, re-targeting bound to `hotkey`.
    pub fn new(hotkey: KeyCode) -> (r: Self)
        ensures
            r@.wf(),
            r@.modifiers =~= seq![
                KeyState::Released,
                KeyState::Released,
                KeyState::Released,
                KeyState::Released,
            ],
            r@.target is None,
            r@.hotkey == hotkey,
    {
        Dispatcher {
            modifier_state: [
                KeyState::Released,
                KeyState::Released,
                KeyState::Released,
                KeyState::Released,
            ],
            input_window: None,
            hotkey,
        }
    }

    /// Handles one upstream event, given the window in focus as it
    /// arrived, and returns the character to broadcast, if any; the state
    /// changes and the output are exactly those of [`step`].
    pub fn on_event(&mut self, event: Event, fg_window: u64) -> (r: Option<char>)
        ensures
            final(self)@ == step(old(self)@, event, fg_window).0,
            r == step(old(self)@, event, fg_window).1,
    {
        if let Event::Key { scancode, key_state } = event {
            if scancode == self.hotkey && key_state == KeyState::Pressed {
                self.input_window = Some(fg_window);
            }
        }

        let gated_in = match self.input_window {
            Some(w) => w == fg_window,
            None => false,
        };
        if !gated_in {
            return None;
        }

        match event {
            Event::Char(c) => if is_suppressed(c) {
                None
            } else {
                Some(c)
            },
            Event::Key { scancode, key_state } => {
                match modifier_index(scancode) {
                    Some(idx) => {
                        let prev = self.modifier_state[idx];
                        self.modifier_state[idx] = key_state;
                        if prev == KeyState::Released {
                            get_send_char(scancode)
                        } else {
                            None
                        }
                    },
                    None => if key_state == KeyState::Pressed {
                        get_send_char(scancode)
                    } else {
                        None
                    },
                }
            },
        }
    }
}

} // verus!
